//! The modified Bessel function of the first kind, order zero: I0 and its
//! exponentially scaled variant exp(-|x|)*I0(x).
//!
//! Both work on |x|. For |x| <= 8 the argument is mapped to |x|/2 - 2 in
//! [-1, 1] and the bounded-interval Chebyshev table is evaluated; above 8 the
//! inverted-interval transform 32/|x| - 2 and the large-argument table are
//! used, divided by sqrt(|x|). The unscaled variant multiplies by exp(|x|).
//! exp(|x|) and sqrt(|x|) cannot be computed here; the caller supplies them
//! as `exp_abs` and `sqrt_abs`, and each contract pins the result exactly as
//! a function of the argument and those two values.
use vstd::prelude::*;
use crate::arith::{div32, div32_bits, div64, div64_bits, mul32, mul32_bits, mul64, mul64_bits,
    sub32, sub64};
use crate::bits64::{EIGHT_64, THIRTY_TWO_64, TWO_64, le64, mag64};
use crate::bits32::{EIGHT_32, THIRTY_TWO_32, TWO_32, le32, mag32};
use crate::bits64::{abs_bits64, le_bits64};
use crate::bits32::{abs_bits32, le_bits32};
use crate::chebyshev::{chbevl32, chbevl64, chbevl_spec32, chbevl_spec64, i0_coeffs_a32,
    i0_coeffs_a64, i0_coeffs_b32, i0_coeffs_b64, i0_table_a32, i0_table_a64, i0_table_b32,
    i0_table_b64};
use crate::arith::{sub32_bits, sub64_bits};

verus! {

/// The Chebyshev argument for the bounded interval: |x|/2 - 2.
pub open spec fn i0_arg_small64(a: u64) -> u64 {
    sub64_bits(div64_bits(a, TWO_64), TWO_64)
}

/// The Chebyshev argument for the inverted interval: 32/|x| - 2.
pub open spec fn i0_arg_large64(a: u64) -> u64 {
    sub64_bits(div64_bits(THIRTY_TWO_64, a), TWO_64)
}

/// What `i0e64` returns: the scaled series value on the bounded interval,
/// or the large-argument series value divided by sqrt(|x|).
pub open spec fn i0e_spec64(x: u64, sqrt_abs: u64) -> u64 {
    let a = mag64(x);
    if le64(a, EIGHT_64) {
        chbevl_spec64(i0_arg_small64(a), i0_coeffs_a64())
    } else {
        div64_bits(chbevl_spec64(i0_arg_large64(a), i0_coeffs_b64()), sqrt_abs)
    }
}

/// What `i064` returns: `i0e_spec64` scaled back up by exp(|x|), with the
/// multiplication placed exactly as the evaluation performs it.
pub open spec fn i0_spec64(x: u64, exp_abs: u64, sqrt_abs: u64) -> u64 {
    let a = mag64(x);
    if le64(a, EIGHT_64) {
        mul64_bits(exp_abs, chbevl_spec64(i0_arg_small64(a), i0_coeffs_a64()))
    } else {
        div64_bits(mul64_bits(exp_abs, chbevl_spec64(i0_arg_large64(a), i0_coeffs_b64())),
            sqrt_abs)
    }
}

/// See `i0_arg_small64`.
pub open spec fn i0_arg_small32(a: u32) -> u32 {
    sub32_bits(div32_bits(a, TWO_32), TWO_32)
}

/// See `i0_arg_large64`.
pub open spec fn i0_arg_large32(a: u32) -> u32 {
    sub32_bits(div32_bits(THIRTY_TWO_32, a), TWO_32)
}

/// See `i0e_spec64`.
pub open spec fn i0e_spec32(x: u32, sqrt_abs: u32) -> u32 {
    let a = mag32(x);
    if le32(a, EIGHT_32) {
        chbevl_spec32(i0_arg_small32(a), i0_coeffs_a32())
    } else {
        div32_bits(chbevl_spec32(i0_arg_large32(a), i0_coeffs_b32()), sqrt_abs)
    }
}

/// See `i0_spec64`.
pub open spec fn i0_spec32(x: u32, exp_abs: u32, sqrt_abs: u32) -> u32 {
    let a = mag32(x);
    if le32(a, EIGHT_32) {
        mul32_bits(exp_abs, chbevl_spec32(i0_arg_small32(a), i0_coeffs_a32()))
    } else {
        div32_bits(mul32_bits(exp_abs, chbevl_spec32(i0_arg_large32(a), i0_coeffs_b32())),
            sqrt_abs)
    }
}

/// I0 of the binary64 argument. `exp_abs` and `sqrt_abs` are exp(|x|) and
/// sqrt(|x|), supplied by the caller; the result is pinned as a function of
/// the argument and of them.
pub fn i064(x: u64, exp_abs: u64, sqrt_abs: u64) -> (r: u64)
    ensures
        r == i0_spec64(x, exp_abs, sqrt_abs),
{
    let a = abs_bits64(x);
    if le_bits64(a, EIGHT_64) {
        let y = sub64(div64(a, TWO_64), TWO_64);
        let t = i0_table_a64();
        mul64(exp_abs, chbevl64(y, &t))
    } else {
        let y = sub64(div64(THIRTY_TWO_64, a), TWO_64);
        let t = i0_table_b64();
        div64(mul64(exp_abs, chbevl64(y, &t)), sqrt_abs)
    }
}

/// Exponentially scaled I0 of the binary64 argument: exp(-|x|)*I0(x).
/// `sqrt_abs` is sqrt(|x|), supplied by the caller and used only above the
/// interval boundary.
pub fn i0e64(x: u64, sqrt_abs: u64) -> (r: u64)
    ensures
        r == i0e_spec64(x, sqrt_abs),
{
    let a = abs_bits64(x);
    if le_bits64(a, EIGHT_64) {
        let y = sub64(div64(a, TWO_64), TWO_64);
        let t = i0_table_a64();
        chbevl64(y, &t)
    } else {
        let y = sub64(div64(THIRTY_TWO_64, a), TWO_64);
        let t = i0_table_b64();
        div64(chbevl64(y, &t), sqrt_abs)
    }
}

/// See `i064`.
pub fn i032(x: u32, exp_abs: u32, sqrt_abs: u32) -> (r: u32)
    ensures
        r == i0_spec32(x, exp_abs, sqrt_abs),
{
    let a = abs_bits32(x);
    if le_bits32(a, EIGHT_32) {
        let y = sub32(div32(a, TWO_32), TWO_32);
        let t = i0_table_a32();
        mul32(exp_abs, chbevl32(y, &t))
    } else {
        let y = sub32(div32(THIRTY_TWO_32, a), TWO_32);
        let t = i0_table_b32();
        div32(mul32(exp_abs, chbevl32(y, &t)), sqrt_abs)
    }
}

/// See `i0e64`.
pub fn i0e32(x: u32, sqrt_abs: u32) -> (r: u32)
    ensures
        r == i0e_spec32(x, sqrt_abs),
{
    let a = abs_bits32(x);
    if le_bits32(a, EIGHT_32) {
        let y = sub32(div32(a, TWO_32), TWO_32);
        let t = i0_table_a32();
        chbevl32(y, &t)
    } else {
        let y = sub32(div32(THIRTY_TWO_32, a), TWO_32);
        let t = i0_table_b32();
        div32(chbevl32(y, &t), sqrt_abs)
    }
}

/// Consistency of the scaled and unscaled variants on the bounded interval:
/// for |x| <= 8 the unscaled value is exactly the scaled value multiplied by
/// the supplied exp(|x|), operation for operation. (Above the boundary the
/// two differ by the placement of the division by sqrt(|x|), so there the
/// relationship holds only to rounding, not exactly.)
pub proof fn lemma_i0_scaling64(x: u64, exp_abs: u64, sqrt_abs: u64)
    requires
        le64(mag64(x), EIGHT_64),
    ensures
        i0_spec64(x, exp_abs, sqrt_abs) == mul64_bits(exp_abs, i0e_spec64(x, sqrt_abs)),
{
}

/// See `lemma_i0_scaling64`.
pub proof fn lemma_i0_scaling32(x: u32, exp_abs: u32, sqrt_abs: u32)
    requires
        le32(mag32(x), EIGHT_32),
    ensures
        i0_spec32(x, exp_abs, sqrt_abs) == mul32_bits(exp_abs, i0e_spec32(x, sqrt_abs)),
{
}

} // verus!
