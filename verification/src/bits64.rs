//! Model of IEEE-754 binary64 values as raw bit patterns, with verified
//! classification and comparison functions.
//!
//! A real value travels through this library as its 64-bit pattern: sign bit,
//! 11-bit biased exponent, 52-bit fraction. Everything a decision in the
//! library reads of a value (is it NaN, finite, zero, negative, an integer,
//! how does it order against another value) is defined here over the bits and
//! proved about the executable code.
use vstd::prelude::*;

verus! {

pub const SIGN_MASK_64: u64 = 0x8000_0000_0000_0000;
pub const MAG_MASK_64: u64 = 0x7FFF_FFFF_FFFF_FFFF;
pub const FRAC_MASK_64: u64 = 0x000F_FFFF_FFFF_FFFF;
pub const HIDDEN_BIT_64: u64 = 0x0010_0000_0000_0000;
/// Biased exponent of 1.0; below it, a nonzero finite value has magnitude < 1.
pub const EXP_ONE_64: u64 = 1023;
/// Biased exponent from which every finite value is an integer (2^52 and up).
pub const EXP_INT_64: u64 = 1075;
pub const EXP_NAN_64: u64 = 0x7FF;

pub const ZERO_64: u64 = 0;
pub const HALF_64: u64 = 0x3FE0_0000_0000_0000;
pub const ONE_64: u64 = 0x3FF0_0000_0000_0000;
pub const NEG_ONE_64: u64 = 0xBFF0_0000_0000_0000;
pub const TWO_64: u64 = 0x4000_0000_0000_0000;
pub const THREE_64: u64 = 0x4008_0000_0000_0000;
pub const EIGHT_64: u64 = 0x4020_0000_0000_0000;
pub const THIRTY_TWO_64: u64 = 0x4040_0000_0000_0000;
pub const TWENTY_FOUR_64: u64 = 0x4038_0000_0000_0000;
pub const FORTY_EIGHT_64: u64 = 0x4048_0000_0000_0000;
/// 1.0e4, the threshold above which the Pochhammer evaluator switches to its
/// asymptotic expansion.
pub const MIN_FOR_EXP_64: u64 = 0x40C3_8800_0000_0000;
pub const NAN_64: u64 = 0x7FF8_0000_0000_0000;

/// The sign bit: set on negative values, -0.0 and negative NaNs.
pub open spec fn sign64(b: u64) -> bool {
    b & SIGN_MASK_64 != 0
}

/// The magnitude: the bit pattern with the sign cleared. For non-NaN values
/// the magnitudes order exactly as the absolute values of the reals they
/// encode, because the exponent sits above the fraction.
pub open spec fn mag64(b: u64) -> u64 {
    b & MAG_MASK_64
}

pub open spec fn biased_exp64(b: u64) -> u64 {
    (b >> 52) & 0x7FF
}

pub open spec fn frac64(b: u64) -> u64 {
    b & FRAC_MASK_64
}

pub open spec fn is_nan64(b: u64) -> bool {
    biased_exp64(b) == EXP_NAN_64 && frac64(b) != 0
}

pub open spec fn is_finite64(b: u64) -> bool {
    biased_exp64(b) != EXP_NAN_64
}

/// True of +0.0 and -0.0, the two encodings of zero.
pub open spec fn is_zero64(b: u64) -> bool {
    mag64(b) == 0
}

/// Order key: non-NaN values compare as reals exactly as their keys compare
/// as integers, with both zeros on key 0.
pub open spec fn key64(b: u64) -> int {
    if sign64(b) {
        -(mag64(b) as int)
    } else {
        mag64(b) as int
    }
}

/// IEEE `<`: false whenever either side is NaN.
pub open spec fn lt64(a: u64, b: u64) -> bool {
    !is_nan64(a) && !is_nan64(b) && key64(a) < key64(b)
}

/// IEEE `<=`: false whenever either side is NaN.
pub open spec fn le64(a: u64, b: u64) -> bool {
    !is_nan64(a) && !is_nan64(b) && key64(a) <= key64(b)
}

/// IEEE `==`: NaN equals nothing; -0.0 equals +0.0.
pub open spec fn eq64(a: u64, b: u64) -> bool {
    !is_nan64(a) && !is_nan64(b) && key64(a) == key64(b)
}

/// The encoded value is an integer (its floor equals itself); infinities
/// count, as their floor is themselves. Zero is an integer; from 2^52 up
/// every value is; in between, the fraction bits below the binary point,
/// which are the low `EXP_INT_64 - exponent` bits, must be zero.
pub open spec fn integral64(b: u64) -> bool {
    ||| is_zero64(b)
    ||| biased_exp64(b) >= EXP_INT_64
    ||| (biased_exp64(b) >= EXP_ONE_64 && frac64(b) % (1u64 << (EXP_INT_64 - biased_exp64(b)))
        == 0)
}

/// floor(|x|) of the encoded value, for magnitudes below 2^52 (the only ones
/// the library takes a floor of): 0 below 1.0, otherwise the significand with
/// its hidden bit, shifted down to drop the fraction below the binary point.
pub open spec fn floor_mag64(b: u64) -> u64 {
    if biased_exp64(b) < EXP_ONE_64 {
        0
    } else if biased_exp64(b) < EXP_INT_64 {
        (HIDDEN_BIT_64 | frac64(b)) >> (EXP_INT_64 - biased_exp64(b))
    } else {
        0
    }
}

pub fn abs_bits64(b: u64) -> (r: u64)
    ensures
        r == mag64(b),
{
    b & MAG_MASK_64
}

pub fn is_nan_bits64(b: u64) -> (r: bool)
    ensures
        r == is_nan64(b),
{
    ((b >> 52) & 0x7FF) == EXP_NAN_64 && (b & FRAC_MASK_64) != 0
}

pub fn is_finite_bits64(b: u64) -> (r: bool)
    ensures
        r == is_finite64(b),
{
    ((b >> 52) & 0x7FF) != EXP_NAN_64
}

pub fn is_zero_bits64(b: u64) -> (r: bool)
    ensures
        r == is_zero64(b),
{
    (b & MAG_MASK_64) == 0
}

pub fn is_sign_negative_bits64(b: u64) -> (r: bool)
    ensures
        r == sign64(b),
{
    (b & SIGN_MASK_64) != 0
}

pub fn lt_bits64(a: u64, b: u64) -> (r: bool)
    ensures
        r == lt64(a, b),
{
    if is_nan_bits64(a) || is_nan_bits64(b) {
        return false;
    }
    let sa = (a & SIGN_MASK_64) != 0;
    let sb = (b & SIGN_MASK_64) != 0;
    let ma = a & MAG_MASK_64;
    let mb = b & MAG_MASK_64;
    if sa {
        if sb {
            mb < ma
        } else {
            ma != 0 || mb != 0
        }
    } else {
        if sb {
            false
        } else {
            ma < mb
        }
    }
}

pub fn le_bits64(a: u64, b: u64) -> (r: bool)
    ensures
        r == le64(a, b),
{
    if is_nan_bits64(a) || is_nan_bits64(b) {
        return false;
    }
    let sa = (a & SIGN_MASK_64) != 0;
    let sb = (b & SIGN_MASK_64) != 0;
    let ma = a & MAG_MASK_64;
    let mb = b & MAG_MASK_64;
    if sa {
        if sb {
            mb <= ma
        } else {
            true
        }
    } else {
        if sb {
            ma == 0 && mb == 0
        } else {
            ma <= mb
        }
    }
}

pub fn eq_bits64(a: u64, b: u64) -> (r: bool)
    ensures
        r == eq64(a, b),
{
    if is_nan_bits64(a) || is_nan_bits64(b) {
        return false;
    }
    let ma = a & MAG_MASK_64;
    let mb = b & MAG_MASK_64;
    proof {
        assert(((a & 0x8000_0000_0000_0000 != 0) == (b & 0x8000_0000_0000_0000 != 0) && a
            & 0x7FFF_FFFF_FFFF_FFFF == b & 0x7FFF_FFFF_FFFF_FFFF) ==> a == b) by (bit_vector);
    }
    (ma == 0 && mb == 0) || a == b
}

} // verus!
