use specfun::gamma::{gammasgn32, gammasgn64, Real32, Real64, RealGamma};

fn gammasgn_f32(x: f32) -> f32 {
    f32::from_bits(gammasgn32(x.to_bits()))
}

fn gammasgn_f64(x: f64) -> f64 {
    f64::from_bits(gammasgn64(x.to_bits()))
}

#[test]
fn test_gammasgn() {
    for i in 1..20 {
        assert_eq!(gammasgn_f32(i as f32), 1.0);
        assert_eq!(gammasgn_f32(i as f32 + 0.5), 1.0);
        assert_eq!(gammasgn_f32(i as f32 + 0.25), 1.0);

        let neg_even = -(2 * i) as f32;
        assert_eq!(gammasgn_f32(neg_even - 0.5), -1.0);
        assert_eq!(gammasgn_f32(neg_even - 0.25), -1.0);

        let neg_odd = -(2 * i + 1) as f32;
        assert_eq!(gammasgn_f32(neg_odd - 0.5), 1.0);
        assert_eq!(gammasgn_f32(neg_odd - 0.25), 1.0);
    }
}

#[test]
fn test_gammasgn_pole_zero() {
    assert_eq!(gammasgn_f64(0.0), 0.0);
    assert_eq!(gammasgn_f64(-0.0), 0.0);
    assert_eq!(gammasgn_f64(-1.0), 0.0);
    assert_eq!(gammasgn_f64(-2.0), 0.0);
    assert_eq!(gammasgn_f64(-100.0), 0.0);
    assert_eq!(gammasgn_f32(0.0), 0.0);
    assert_eq!(gammasgn_f32(-1.0), 0.0);
    assert_eq!(gammasgn_f32(-2.0), 0.0);
}

#[test]
fn test_gammasgn_periodicity_f64() {
    for k in 1..50i64 {
        let below_even = -(2 * k) as f64;
        assert_eq!(gammasgn_f64(below_even - 0.5), -1.0);
        assert_eq!(gammasgn_f64(below_even - 0.125), -1.0);
        let below_odd = -(2 * k + 1) as f64;
        assert_eq!(gammasgn_f64(below_odd - 0.5), 1.0);
        assert_eq!(gammasgn_f64(below_odd - 0.125), 1.0);
        assert_eq!(gammasgn_f64(k as f64 + 0.5), 1.0);
    }
    assert_eq!(gammasgn_f64(0.5), 1.0);
    assert_eq!(gammasgn_f64(1.0e300), 1.0);
    assert_eq!(gammasgn_f64(-0.25), -1.0);
}

#[test]
fn test_realgamma_trait() {
    let v = Real64 { bits: 2.5f64.to_bits() };
    assert_eq!(f64::from_bits(v.gammasgn().bits), 1.0);
    let w = Real32 { bits: (-0.5f32).to_bits() };
    assert_eq!(f32::from_bits(w.gammasgn().bits), -1.0);
    let p = Real64 { bits: (-3.0f64).to_bits() };
    assert_eq!(f64::from_bits(p.gammasgn().bits), 0.0);
}

#[test]
fn test_gammasgn_nonfinite_passthrough() {
    assert_eq!(gammasgn_f64(f64::INFINITY), f64::INFINITY);
    assert_eq!(gammasgn_f64(f64::NEG_INFINITY), f64::NEG_INFINITY);
    assert!(gammasgn_f64(f64::NAN).is_nan());
    assert!(gammasgn_f32(f32::NAN).is_nan());
}
