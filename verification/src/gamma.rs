//! Pole detection and the sign of the Gamma function.
//!
//! The Gamma function has poles at the non-positive integers. On the negative
//! axis its sign alternates between consecutive poles; everywhere else on the
//! reals it is positive. Both facts are decided here purely from the bit
//! pattern of the argument and proved against the bit-level model.
use vstd::prelude::*;
use crate::bits64::{
    EXP_INT_64, EXP_ONE_64, FRAC_MASK_64, HIDDEN_BIT_64, MAG_MASK_64, NEG_ONE_64, ONE_64,
    SIGN_MASK_64, ZERO_64, floor_mag64, integral64, is_finite64, is_finite_bits64, is_nan64,
    is_nan_bits64, key64, sign64,
};
use crate::bits32::{
    EXP_INT_32, EXP_ONE_32, FRAC_MASK_32, HIDDEN_BIT_32, MAG_MASK_32, NEG_ONE_32, ONE_32,
    SIGN_MASK_32, ZERO_32, floor_mag32, integral32, is_finite32, is_finite_bits32, is_nan32,
    is_nan_bits32, key32, sign32,
};

verus! {

/// The argument sits at a pole of Gamma: it is <= 0 and equal to its own
/// floor. Matches the IEEE reading of `x <= 0 && x == floor(x)`: both zeros
/// qualify, negative infinity qualifies (its floor is itself), NaN never does.
pub open spec fn is_pole64(b: u64) -> bool {
    !is_nan64(b) && key64(b) <= 0 && integral64(b)
}

/// See `is_pole64`.
pub open spec fn is_pole32(b: u32) -> bool {
    !is_nan32(b) && key32(b) <= 0 && integral32(b)
}

/// What `gammasgn` returns, by cases over the bit-level model: non-finite
/// arguments pass through unchanged, poles report 0.0, non-negative arguments
/// report +1.0, and a negative non-pole argument reports the sign Gamma takes
/// between the surrounding poles: +1.0 when floor(|x|) is odd, -1.0 when it
/// is even.
pub open spec fn gammasgn_spec64(b: u64) -> u64 {
    if !is_finite64(b) {
        b
    } else if is_pole64(b) {
        ZERO_64
    } else if !sign64(b) {
        ONE_64
    } else if floor_mag64(b) % 2 == 1 {
        ONE_64
    } else {
        NEG_ONE_64
    }
}

/// See `gammasgn_spec64`.
pub open spec fn gammasgn_spec32(b: u32) -> u32 {
    if !is_finite32(b) {
        b
    } else if is_pole32(b) {
        ZERO_32
    } else if !sign32(b) {
        ONE_32
    } else if floor_mag32(b) % 2 == 1 {
        ONE_32
    } else {
        NEG_ONE_32
    }
}

/// Decides whether the binary64 argument is a pole of Gamma (0, -1, -2, ...).
pub fn is_gamma_pole64(b: u64) -> (r: bool)
    ensures
        r == is_pole64(b),
{
    if is_nan_bits64(b) {
        return false;
    }
    let mag = b & MAG_MASK_64;
    if mag == 0 {
        return true;
    }
    if (b & SIGN_MASK_64) == 0 {
        return false;
    }
    let e = (b >> 52) & 0x7FF;
    if e >= EXP_INT_64 {
        return true;
    }
    if e < EXP_ONE_64 {
        return false;
    }
    let sh = EXP_INT_64 - e;
    proof {
        assert(1u64 << sh != 0) by (bit_vector)
            requires
                0 < sh < 64,
        ;
    }
    (b & FRAC_MASK_64) % (1u64 << sh) == 0
}

/// Decides whether the binary32 argument is a pole of Gamma (0, -1, -2, ...).
pub fn is_gamma_pole32(b: u32) -> (r: bool)
    ensures
        r == is_pole32(b),
{
    if is_nan_bits32(b) {
        return false;
    }
    let mag = b & MAG_MASK_32;
    if mag == 0 {
        return true;
    }
    if (b & SIGN_MASK_32) == 0 {
        return false;
    }
    let e = (b >> 23) & 0xFF;
    if e >= EXP_INT_32 {
        return true;
    }
    if e < EXP_ONE_32 {
        return false;
    }
    let sh = EXP_INT_32 - e;
    proof {
        assert(1u32 << sh != 0) by (bit_vector)
            requires
                0 < sh < 32,
        ;
    }
    (b & FRAC_MASK_32) % (1u32 << sh) == 0
}

/// Sign of the Gamma function of the binary64 argument, as a binary64 value:
/// +1.0, -1.0, 0.0 at a pole, or the argument itself when it is not finite.
pub fn gammasgn64(b: u64) -> (r: u64)
    ensures
        r == gammasgn_spec64(b),
{
    if !is_finite_bits64(b) {
        return b;
    }
    if is_gamma_pole64(b) {
        return ZERO_64;
    }
    if (b & SIGN_MASK_64) == 0 {
        return ONE_64;
    }
    let e = (b >> 52) & 0x7FF;
    if e < EXP_ONE_64 {
        return NEG_ONE_64;
    }
    let fl = (HIDDEN_BIT_64 | (b & FRAC_MASK_64)) >> (EXP_INT_64 - e);
    proof {
        assert(fl & 1 == fl % 2) by (bit_vector);
        assert(e < EXP_INT_64);
    }
    if (fl & 1) == 1 {
        ONE_64
    } else {
        NEG_ONE_64
    }
}

/// Sign of the Gamma function of the binary32 argument, as a binary32 value.
pub fn gammasgn32(b: u32) -> (r: u32)
    ensures
        r == gammasgn_spec32(b),
{
    if !is_finite_bits32(b) {
        return b;
    }
    if is_gamma_pole32(b) {
        return ZERO_32;
    }
    if (b & SIGN_MASK_32) == 0 {
        return ONE_32;
    }
    let e = (b >> 23) & 0xFF;
    if e < EXP_ONE_32 {
        return NEG_ONE_32;
    }
    let fl = (HIDDEN_BIT_32 | (b & FRAC_MASK_32)) >> (EXP_INT_32 - e);
    proof {
        assert(fl & 1 == fl % 2) by (bit_vector);
        assert(e < EXP_INT_32);
    }
    if (fl & 1) == 1 {
        ONE_32
    } else {
        NEG_ONE_32
    }
}

/// Pole rule: on finite arguments, gammasgn reports 0.0 exactly at the poles
/// of Gamma (0, -1, -2, ...), and nowhere else.
pub proof fn lemma_gammasgn_pole_zero64(b: u64)
    requires
        is_finite64(b),
    ensures
        is_pole64(b) <==> gammasgn_spec64(b) == ZERO_64,
{
}

/// Sign periodicity, non-negative side: gammasgn is +1.0 on every finite
/// non-negative argument that is not a pole.
pub proof fn lemma_gammasgn_nonnegative64(b: u64)
    requires
        is_finite64(b),
        !sign64(b),
        !is_pole64(b),
    ensures
        gammasgn_spec64(b) == ONE_64,
{
}

/// Sign periodicity, negative side: between consecutive poles the sign is
/// fixed by the parity of floor(|x|): +1.0 below an odd pole, -1.0 below an
/// even pole.
pub proof fn lemma_gammasgn_negative64(b: u64)
    requires
        is_finite64(b),
        sign64(b),
        !is_pole64(b),
    ensures
        gammasgn_spec64(b) == if floor_mag64(b) % 2 == 1 {
            ONE_64
        } else {
            NEG_ONE_64
        },
{
}

/// Sign periodicity, alternation: two negative non-pole arguments lying in
/// adjacent unit intervals between poles carry opposite Gamma signs.
pub proof fn lemma_gammasgn_alternates64(a: u64, b: u64)
    requires
        is_finite64(a),
        sign64(a),
        !is_pole64(a),
        is_finite64(b),
        sign64(b),
        !is_pole64(b),
        floor_mag64(b) == floor_mag64(a) + 1,
    ensures
        gammasgn_spec64(a) == ONE_64 <==> gammasgn_spec64(b) == NEG_ONE_64,
        gammasgn_spec64(a) == NEG_ONE_64 <==> gammasgn_spec64(b) == ONE_64,
{
    let fa = floor_mag64(a);
    let fb = floor_mag64(b);
    assert(fb % 2 == if fa % 2 == 1 {
        0u64
    } else {
        1u64
    });
}

/// Pole rule: on finite arguments, gammasgn reports 0.0 exactly at the poles
/// of Gamma (0, -1, -2, ...), and nowhere else.
pub proof fn lemma_gammasgn_pole_zero32(b: u32)
    requires
        is_finite32(b),
    ensures
        is_pole32(b) <==> gammasgn_spec32(b) == ZERO_32,
{
}

/// Sign periodicity, non-negative side: gammasgn is +1.0 on every finite
/// non-negative argument that is not a pole.
pub proof fn lemma_gammasgn_nonnegative32(b: u32)
    requires
        is_finite32(b),
        !sign32(b),
        !is_pole32(b),
    ensures
        gammasgn_spec32(b) == ONE_32,
{
}

/// Sign periodicity, negative side: between consecutive poles the sign is
/// fixed by the parity of floor(|x|): +1.0 below an odd pole, -1.0 below an
/// even pole.
pub proof fn lemma_gammasgn_negative32(b: u32)
    requires
        is_finite32(b),
        sign32(b),
        !is_pole32(b),
    ensures
        gammasgn_spec32(b) == if floor_mag32(b) % 2 == 1 {
            ONE_32
        } else {
            NEG_ONE_32
        },
{
}

/// Sign periodicity, alternation: two negative non-pole arguments lying in
/// adjacent unit intervals between poles carry opposite Gamma signs.
pub proof fn lemma_gammasgn_alternates32(a: u32, b: u32)
    requires
        is_finite32(a),
        sign32(a),
        !is_pole32(a),
        is_finite32(b),
        sign32(b),
        !is_pole32(b),
        floor_mag32(b) == floor_mag32(a) + 1,
    ensures
        gammasgn_spec32(a) == ONE_32 <==> gammasgn_spec32(b) == NEG_ONE_32,
        gammasgn_spec32(a) == NEG_ONE_32 <==> gammasgn_spec32(b) == ONE_32,
{
    let fa = floor_mag32(a);
    let fb = floor_mag32(b);
    assert(fb % 2 == if fa % 2 == 1 {
        0u32
    } else {
        1u32
    });
}

/// Gamma and related functions, the domain-neutral part.
pub trait Gamma {

}

/// Gamma related functions which only make sense for real-valued arguments.
pub trait RealGamma: Gamma {
    /// Sign of the Gamma function: +1.0 or -1.0 by the sign of Gamma at the
    /// argument, 0.0 at a pole, the argument itself when it is not finite.
    fn gammasgn(self) -> Self;
}

/// A binary64 real value, carried as its IEEE-754 bit pattern.
#[derive(Clone, Copy, PartialEq, Eq, Structural, Debug)]
pub struct Real64 {
    pub bits: u64,
}

/// A binary32 real value, carried as its IEEE-754 bit pattern.
#[derive(Clone, Copy, PartialEq, Eq, Structural, Debug)]
pub struct Real32 {
    pub bits: u32,
}

impl Gamma for Real64 {

}

impl RealGamma for Real64 {
    fn gammasgn(self) -> Self {
        Real64 { bits: gammasgn64(self.bits) }
    }
}

impl Gamma for Real32 {

}

impl RealGamma for Real32 {
    fn gammasgn(self) -> Self {
        Real32 { bits: gammasgn32(self.bits) }
    }
}

} // verus!
