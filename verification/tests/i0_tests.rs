use specfun::bessel::{i032, i064, i0e32, i0e64};
use specfun::chebyshev::{chbevl32, chbevl64};

fn i0_f64_of(x: f64) -> f64 {
    let a = x.abs();
    f64::from_bits(i064(x.to_bits(), a.exp().to_bits(), a.sqrt().to_bits()))
}

fn i0e_f64_of(x: f64) -> f64 {
    let a = x.abs();
    f64::from_bits(i0e64(x.to_bits(), a.sqrt().to_bits()))
}

fn i0_f32_of(x: f32) -> f32 {
    let a = x.abs();
    f32::from_bits(i032(x.to_bits(), a.exp().to_bits(), a.sqrt().to_bits()))
}

fn i0e_f32_of(x: f32) -> f32 {
    let a = x.abs();
    f32::from_bits(i0e32(x.to_bits(), a.sqrt().to_bits()))
}

fn relative_eq64(a: f64, b: f64, epsilon: f64) -> bool {
    if a == b {
        return true;
    }
    if a.is_infinite() || b.is_infinite() {
        return false;
    }
    let diff = (a - b).abs();
    if diff <= epsilon {
        return true;
    }
    let largest = a.abs().max(b.abs());
    diff <= largest * f64::EPSILON
}

fn relative_eq32(a: f32, b: f32, epsilon: f32) -> bool {
    if a == b {
        return true;
    }
    if a.is_infinite() || b.is_infinite() {
        return false;
    }
    let diff = (a - b).abs();
    if diff <= epsilon {
        return true;
    }
    let largest = a.abs().max(b.abs());
    diff <= largest * f32::EPSILON
}

#[test]
fn i0_f64() {
    let result: f64 = i0_f64_of(0.);
    let exp = 1.;
    assert!(relative_eq64(result, exp, 1e-6));
    let result: f64 = i0_f64_of(1.);
    let exp = 1.2660658777520082;
    assert!(relative_eq64(result, exp, 1e-6));
    let result: f64 = i0_f64_of(0.213);
    let exp = 1.0113744522192416;
    assert!(relative_eq64(result, exp, 1e-6));
    let result: f64 = i0_f64_of(5.0);
    let exp = 27.239871823604442;
    assert!(relative_eq64(result, exp, 1e-6));
    let result: f64 = i0_f64_of(30.546);
    let exp = 1337209608661.4026;
    assert!(relative_eq64(result, exp, 1e-6));
}

#[test]
fn i0_f32() {
    let result: f32 = i0_f32_of(0.);
    let exp = 1.;
    assert!(relative_eq32(result, exp, 1e-6));
    let result: f32 = i0_f32_of(1.);
    let exp = 1.2660658777520082;
    assert!(relative_eq32(result, exp, 1e-6));
    let result: f32 = i0_f32_of(0.213);
    let exp = 1.0113744522192416;
    assert!(relative_eq32(result, exp, 1e-6));
}

#[test]
fn i0e_f64() {
    let result: f64 = i0e_f64_of(0.);
    let exp = 1.;
    assert!(relative_eq64(result, exp, 1e-6));
    let result: f64 = i0e_f64_of(1.);
    let exp = 0.46575960759364043;
    assert!(relative_eq64(result, exp, 1e-6));
    let result: f64 = i0e_f64_of(0.213);
    let exp = 0.8173484705849442;
    assert!(relative_eq64(result, exp, 1e-6));
    let result: f64 = i0e_f64_of(5.0);
    let exp = 0.18354081260932834;
    assert!(relative_eq64(result, exp, 1e-6));
    let result: f64 = i0e_f64_of(30.546);
    let exp = 0.0724836816695565;
    assert!(relative_eq64(result, exp, 1e-6));
}

#[test]
fn i0e_f32() {
    let result: f32 = i0e_f32_of(0.);
    let exp = 1.;
    assert!(relative_eq32(result, exp, 1e-6));
    let result: f32 = i0e_f32_of(1.);
    let exp = 0.46575960759364043;
    assert!(relative_eq32(result, exp, 1e-6));
    let result: f32 = i0e_f32_of(0.213);
    let exp = 0.8173484705849442;
    assert!(relative_eq32(result, exp, 1e-6));
    let result: f32 = i0e_f32_of(5.0);
    let exp = 0.18354081260932834;
    assert!(relative_eq32(result, exp, 1e-6));
    let result: f32 = i0e_f32_of(30.546);
    let exp = 0.0724836816695565;
    assert!(relative_eq32(result, exp, 1e-6));
}

#[test]
fn i0_scaling_consistency() {
    let xs: [f64; 12] = [0.0, 0.5, 1.0, 2.75, 5.0, 7.999999999999999, 8.0, 8.000000000000002,
        9.5, 15.25, 30.546, -4.5];
    for &x in xs.iter() {
        let scaled = i0_f64_of(x) * (-x.abs()).exp();
        assert!(relative_eq64(scaled, i0e_f64_of(x), 1e-12));
    }
    let xs32: [f32; 8] = [0.0, 1.0, 5.0, 7.9999995, 8.0, 8.000001, 20.25, -3.5];
    for &x in xs32.iter() {
        let scaled = i0_f32_of(x) * (-x.abs()).exp();
        assert!(relative_eq32(scaled, i0e_f32_of(x), 1e-5));
    }
}

#[test]
fn i0_boundary_continuity() {
    let below = 7.999999999999999f64;
    let above = 8.000000000000002f64;
    assert!(relative_eq64(i0_f64_of(below), i0_f64_of(above), 1e-9));
    assert!(relative_eq64(i0e_f64_of(below), i0e_f64_of(above), 1e-9));
    let below32 = 7.9999995f32;
    let above32 = 8.000001f32;
    assert!(relative_eq32(i0_f32_of(below32), i0_f32_of(above32), 1e-3));
    assert!(relative_eq32(i0e_f32_of(below32), i0e_f32_of(above32), 1e-4));
}

#[test]
fn i0_nan_propagates() {
    assert!(i0_f64_of(f64::NAN).is_nan());
    assert!(i0e_f64_of(f64::NAN).is_nan());
    assert!(i0_f32_of(f32::NAN).is_nan());
    assert!(i0e_f32_of(f32::NAN).is_nan());
}

#[test]
fn chbevl_small_table() {
    // With table [1, 0] the recurrence gives b0 = x, b2 = 0, so the series
    // value is x/2; a transcription that handed arguments back unchanged
    // could not produce it.
    let c: Vec<u64> = vec![1.0f64.to_bits(), 0.0f64.to_bits()];
    let r = f64::from_bits(chbevl64(3.0f64.to_bits(), &c));
    assert_eq!(r, 1.5);
    let c32: Vec<u32> = vec![1.0f32.to_bits(), 0.0f32.to_bits()];
    let r32 = f32::from_bits(chbevl32(3.0f32.to_bits(), &c32));
    assert_eq!(r32, 1.5);
}

#[test]
fn i0_even_in_argument() {
    let xs: [f64; 4] = [0.25, 1.0, 8.0, 19.5];
    for &x in xs.iter() {
        assert_eq!(i0_f64_of(x), i0_f64_of(-x));
        assert_eq!(i0e_f64_of(x), i0e_f64_of(-x));
    }
}
