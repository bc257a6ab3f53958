use specfun::poch::{poch_asymptotic64, poch_decide64, poch_fallback64, poch_peel64, PochOutcome};
use specfun::poch32::{poch_asymptotic32, poch_decide32, poch_fallback32, poch_peel32, PochOutcome32};

/// Drives the full Pochhammer evaluation: the verified peel and decision,
/// with the two outside values (x^m and the exponentiated log-Gamma
/// difference) computed here and handed to the verified finishers.
fn poch_of(x: f64, m: f64) -> f64 {
    let xb = x.to_bits();
    let (r, m2) = poch_peel64(xb, m.to_bits());
    match poch_decide64(xb, m2, r) {
        PochOutcome::Done(v) => f64::from_bits(v),
        PochOutcome::Asymptotic => {
            let p = x.powf(f64::from_bits(m2));
            f64::from_bits(poch_asymptotic64(xb, m2, r, p.to_bits()))
        }
        PochOutcome::Fallback(t) => {
            let e = (libm::lgamma(f64::from_bits(t)) - libm::lgamma(x)).exp();
            f64::from_bits(poch_fallback64(xb, m2, r, e.to_bits()))
        }
    }
}

/// The binary32 counterpart of `poch_of`.
fn poch_f32_of(x: f32, m: f32) -> f32 {
    let xb = x.to_bits();
    let (r, m2) = poch_peel32(xb, m.to_bits());
    match poch_decide32(xb, m2, r) {
        PochOutcome32::Done(v) => f32::from_bits(v),
        PochOutcome32::Asymptotic => {
            let p = x.powf(f32::from_bits(m2));
            f32::from_bits(poch_asymptotic32(xb, m2, r, p.to_bits()))
        }
        PochOutcome32::Fallback(t) => {
            let e = (libm::lgammaf(f32::from_bits(t)) - libm::lgammaf(x)).exp();
            f32::from_bits(poch_fallback32(xb, m2, r, e.to_bits()))
        }
    }
}

fn factorial(n: u64) -> u64 {
    let mut acc: u64 = 1;
    let mut k: u64 = 2;
    while k <= n {
        acc *= k;
        k += 1;
    }
    acc
}

fn almost_eq(a: f64, b: f64, prec: f64) -> bool {
    if b.is_nan() {
        return a.is_nan();
    }
    if a == b {
        return true;
    }
    let diff = (a - b).abs();
    diff <= prec || diff <= prec * a.abs().max(b.abs())
}

#[test]
fn test_rpoch() {
    for i in 1..10u64 {
        for m in 0..5u64 {
            assert_eq!(
                poch_of(i as f64, m as f64),
                factorial(i + m - 1) as f64 / factorial(i - 1) as f64
            );
        }
    }

    let absolute_known_values: [[f64; 3]; 5] = [
        [0.0, 0.0, 1.0],
        [0.0, 0.25, 0.0],
        [-1.0, 0.0, 1.0],
        [-1.0, 0.25, 0.0],
        [-2.0, 1.0, -2.0],
    ];

    let pi = std::f64::consts::PI;
    let known_values: [[f64; 3]; 12] = [
        [-2.2, 0.2, f64::NAN],
        [0.5, 0.5, 0.56418958354775639030],
        [0.5, 1.0, 0.5],
        [1.0, 0.5, 0.88622692545275794096],
        [1.5, 1.0, 1.5],
        [1.0, 1.5, 1.32934038817913702246],
        [1.5, 1.5, 2.25675833419102511712],
        [2.5, 2.5, 18.05406667352819738426],
        [150.00001, pi, 7015772.59900571219623088837],
        [pi / 2.0, pi, 17.63940522158362397144],
        [-34.54, -2.4, 0.000959271152790991576995792318463],
        [-1.5, -0.22, 1.099148632503722270901806],
    ];

    let precision: f64 = 1e-14;
    for value in absolute_known_values {
        assert_eq!(poch_of(value[0], value[1]), value[2]);
    }
    for value in known_values {
        assert!(
            almost_eq(poch_of(value[0], value[1]), value[2], precision),
            "poch({}, {}) = {} != {}",
            value[0],
            value[1],
            poch_of(value[0], value[1]),
            value[2]
        );
    }
}

#[test]
fn test_poch_integer_exactness() {
    for i in 1..15u64 {
        for m in 0..6u64 {
            let expected = factorial(i + m - 1) as f64 / factorial(i - 1) as f64;
            assert_eq!(poch_of(i as f64, m as f64), expected);
        }
    }
    assert_eq!(poch_of(12345.0, 1.0), 12345.0);
    assert_eq!(poch_of(3.0, 2.0), 12.0);
}

#[test]
fn test_poch_asymptotic_recurrence() {
    // Above the 1.0e4 threshold with |m| <= 1 the asymptotic branch runs;
    // the rising-factorial recurrence ties two such evaluations to an
    // exactly-peeled one: poch(x, 1/2) * poch(x + 1/2, 1/2) == poch(x, 1).
    let x = 20000.0f64;
    let half_up = poch_of(x, 0.5) * poch_of(x + 0.5, 0.5);
    let whole = poch_of(x, 1.0);
    assert_eq!(whole, 20000.0);
    assert!((half_up - whole).abs() <= 1e-10 * whole);
}

#[test]
fn test_poch_f32() {
    for i in 1..8u64 {
        for m in 0..4u64 {
            let expected = factorial(i + m - 1) as f32 / factorial(i - 1) as f32;
            assert_eq!(poch_f32_of(i as f32, m as f32), expected);
        }
    }
    assert_eq!(poch_f32_of(0.0, 0.0), 1.0);
    assert_eq!(poch_f32_of(0.0, 0.25), 0.0);
    assert_eq!(poch_f32_of(-2.0, 1.0), -2.0);
    assert!(poch_f32_of(-2.2, 0.2).is_nan());
    let r = poch_f32_of(0.5, 0.5);
    assert!((r - 0.56418958).abs() <= 1e-6 * 0.56418958);
}

#[test]
fn test_poch_nan_propagates() {
    assert!(poch_of(f64::NAN, 1.0).is_nan());
    assert!(poch_of(1.0, f64::NAN).is_nan());
}

#[test]
fn test_poch_pole_cases() {
    // Offset lands on a pole that the base does not share: undefined.
    assert!(poch_of(-2.2, 0.2).is_nan());
    // Base at a pole, offset leaves it: the ratio is formally zero.
    assert_eq!(poch_of(-2.0, 0.5), 0.0);
    assert_eq!(poch_of(0.0, 0.25), 0.0);
    // Offset zero is exactly one, pole or not.
    assert_eq!(poch_of(-7.0, 0.0), 1.0);
    assert_eq!(poch_of(4.25, 0.0), 1.0);
    assert_eq!(poch_of(0.0, -0.0), 1.0);
}
