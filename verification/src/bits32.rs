//! Model of IEEE-754 binary32 values as raw bit patterns, with verified
//! classification and comparison functions.
//!
//! A real value travels through this library as its 32-bit pattern: sign bit,
//! 8-bit biased exponent, 23-bit fraction. Everything a decision in the
//! library reads of a value (is it NaN, finite, zero, negative, an integer,
//! how does it order against another value) is defined here over the bits and
//! proved about the executable code.
use vstd::prelude::*;

verus! {

pub const SIGN_MASK_32: u32 = 0x8000_0000;
pub const MAG_MASK_32: u32 = 0x7FFF_FFFF;
pub const FRAC_MASK_32: u32 = 0x007F_FFFF;
pub const HIDDEN_BIT_32: u32 = 0x0080_0000;
/// Biased exponent of 1.0; below it, a nonzero finite value has magnitude < 1.
pub const EXP_ONE_32: u32 = 127;
/// Biased exponent from which every finite value is an integer (2^23 and up).
pub const EXP_INT_32: u32 = 150;
pub const EXP_NAN_32: u32 = 0xFF;

pub const ZERO_32: u32 = 0;
pub const HALF_32: u32 = 0x3F00_0000;
pub const ONE_32: u32 = 0x3F80_0000;
pub const NEG_ONE_32: u32 = 0xBF80_0000;
pub const TWO_32: u32 = 0x4000_0000;
pub const THREE_32: u32 = 0x4040_0000;
pub const EIGHT_32: u32 = 0x4100_0000;
pub const THIRTY_TWO_32: u32 = 0x4200_0000;
pub const TWENTY_FOUR_32: u32 = 0x41C0_0000;
pub const FORTY_EIGHT_32: u32 = 0x4240_0000;
/// 1.0e4, the threshold above which the Pochhammer evaluator switches to its
/// asymptotic expansion.
pub const MIN_FOR_EXP_32: u32 = 0x461C_4000;
pub const NAN_32: u32 = 0x7FC0_0000;

/// The sign bit: set on negative values, -0.0 and negative NaNs.
pub open spec fn sign32(b: u32) -> bool {
    b & SIGN_MASK_32 != 0
}

/// The magnitude: the bit pattern with the sign cleared. For non-NaN values
/// the magnitudes order exactly as the absolute values of the reals they
/// encode, because the exponent sits above the fraction.
pub open spec fn mag32(b: u32) -> u32 {
    b & MAG_MASK_32
}

pub open spec fn biased_exp32(b: u32) -> u32 {
    (b >> 23) & 0xFF
}

pub open spec fn frac32(b: u32) -> u32 {
    b & FRAC_MASK_32
}

pub open spec fn is_nan32(b: u32) -> bool {
    biased_exp32(b) == EXP_NAN_32 && frac32(b) != 0
}

pub open spec fn is_finite32(b: u32) -> bool {
    biased_exp32(b) != EXP_NAN_32
}

/// True of +0.0 and -0.0, the two encodings of zero.
pub open spec fn is_zero32(b: u32) -> bool {
    mag32(b) == 0
}

/// Order key: non-NaN values compare as reals exactly as their keys compare
/// as integers, with both zeros on key 0.
pub open spec fn key32(b: u32) -> int {
    if sign32(b) {
        -(mag32(b) as int)
    } else {
        mag32(b) as int
    }
}

/// IEEE `<`: false whenever either side is NaN.
pub open spec fn lt32(a: u32, b: u32) -> bool {
    !is_nan32(a) && !is_nan32(b) && key32(a) < key32(b)
}

/// IEEE `<=`: false whenever either side is NaN.
pub open spec fn le32(a: u32, b: u32) -> bool {
    !is_nan32(a) && !is_nan32(b) && key32(a) <= key32(b)
}

/// IEEE `==`: NaN equals nothing; -0.0 equals +0.0.
pub open spec fn eq32(a: u32, b: u32) -> bool {
    !is_nan32(a) && !is_nan32(b) && key32(a) == key32(b)
}

/// The encoded value is an integer (its floor equals itself); infinities
/// count, as their floor is themselves. Zero is an integer; from 2^23 up
/// every value is; in between, the fraction bits below the binary point,
/// which are the low `EXP_INT_32 - exponent` bits, must be zero.
pub open spec fn integral32(b: u32) -> bool {
    ||| is_zero32(b)
    ||| biased_exp32(b) >= EXP_INT_32
    ||| (biased_exp32(b) >= EXP_ONE_32 && frac32(b) % (1u32 << (EXP_INT_32 - biased_exp32(b)))
        == 0)
}

/// floor(|x|) of the encoded value, for magnitudes below 2^23 (the only ones
/// the library takes a floor of): 0 below 1.0, otherwise the significand with
/// its hidden bit, shifted down to drop the fraction below the binary point.
pub open spec fn floor_mag32(b: u32) -> u32 {
    if biased_exp32(b) < EXP_ONE_32 {
        0
    } else if biased_exp32(b) < EXP_INT_32 {
        (HIDDEN_BIT_32 | frac32(b)) >> (EXP_INT_32 - biased_exp32(b))
    } else {
        0
    }
}

pub fn abs_bits32(b: u32) -> (r: u32)
    ensures
        r == mag32(b),
{
    b & MAG_MASK_32
}

pub fn is_nan_bits32(b: u32) -> (r: bool)
    ensures
        r == is_nan32(b),
{
    ((b >> 23) & 0xFF) == EXP_NAN_32 && (b & FRAC_MASK_32) != 0
}

pub fn is_finite_bits32(b: u32) -> (r: bool)
    ensures
        r == is_finite32(b),
{
    ((b >> 23) & 0xFF) != EXP_NAN_32
}

pub fn is_zero_bits32(b: u32) -> (r: bool)
    ensures
        r == is_zero32(b),
{
    (b & MAG_MASK_32) == 0
}

pub fn is_sign_negative_bits32(b: u32) -> (r: bool)
    ensures
        r == sign32(b),
{
    (b & SIGN_MASK_32) != 0
}

pub fn lt_bits32(a: u32, b: u32) -> (r: bool)
    ensures
        r == lt32(a, b),
{
    if is_nan_bits32(a) || is_nan_bits32(b) {
        return false;
    }
    let sa = (a & SIGN_MASK_32) != 0;
    let sb = (b & SIGN_MASK_32) != 0;
    let ma = a & MAG_MASK_32;
    let mb = b & MAG_MASK_32;
    if sa {
        if sb {
            mb < ma
        } else {
            ma != 0 || mb != 0
        }
    } else {
        if sb {
            false
        } else {
            ma < mb
        }
    }
}

pub fn le_bits32(a: u32, b: u32) -> (r: bool)
    ensures
        r == le32(a, b),
{
    if is_nan_bits32(a) || is_nan_bits32(b) {
        return false;
    }
    let sa = (a & SIGN_MASK_32) != 0;
    let sb = (b & SIGN_MASK_32) != 0;
    let ma = a & MAG_MASK_32;
    let mb = b & MAG_MASK_32;
    if sa {
        if sb {
            mb <= ma
        } else {
            true
        }
    } else {
        if sb {
            ma == 0 && mb == 0
        } else {
            ma <= mb
        }
    }
}

pub fn eq_bits32(a: u32, b: u32) -> (r: bool)
    ensures
        r == eq32(a, b),
{
    if is_nan_bits32(a) || is_nan_bits32(b) {
        return false;
    }
    let ma = a & MAG_MASK_32;
    let mb = b & MAG_MASK_32;
    proof {
        assert(((a & 0x8000_0000 != 0) == (b & 0x8000_0000 != 0) && a & 0x7FFF_FFFF == b
            & 0x7FFF_FFFF) ==> a == b) by (bit_vector);
    }
    (ma == 0 && mb == 0) || a == b
}

} // verus!
