//! The Pochhammer symbol (rising factorial ratio) Gamma(x+m)/Gamma(x) for
//! binary32 arguments.
//!
//! The evaluation first peels integer unit steps off `m`, multiplying or
//! dividing the running ratio by `x + m` (with early exits when `x + m`
//! aligns on 1, or the ratio leaves the finite nonzero range). What remains
//! is decided from the peeled state: the ratio itself when `m` reached zero,
//! a large-argument asymptotic expansion, NaN or zero at mismatched poles, or
//! a log-Gamma reconstruction. The peel and every decision run verified
//! here; the caller performs the two outside steps (raising `x` to the power
//! `m`, and exponentiating the log-Gamma difference) and hands the values to
//! the verified finishing functions, whose contracts pin the result exactly.
use vstd::prelude::*;
use crate::arith::{add32, add32_bits, div32, div32_bits, mul32, mul32_bits, sub32, sub32_bits};
use crate::bits32::{
    MIN_FOR_EXP_32, NAN_32, NEG_ONE_32, ONE_32, THREE_32, TWO_32, TWENTY_FOUR_32, FORTY_EIGHT_32,
    ZERO_32, abs_bits32, eq32, eq_bits32, is_finite32, is_finite_bits32, is_zero32, is_zero_bits32,
    le32, le_bits32, lt32, lt_bits32, mag32,
};
use crate::gamma::{gammasgn32, gammasgn_spec32, is_gamma_pole32, is_pole32};

verus! {

/// The step budget for each peel loop. A peel that made this many unit
/// steps would have walked the offset down by 2^24, the full width of the
/// exactly-representable integers; the running ratio leaves the finite
/// nonzero range (and so stops the loop) long before that.
pub const PEEL_FUEL: u32 = 0x0100_0000;

/// The state of the descending peel (`m >= 1`) after running from (r, m) to
/// its stop, or for at most `fuel` steps: stop on `m < 1` or on
/// `x + m == 1`; otherwise step to m - 1 and r * (x + (m - 1)), stopping
/// after a step that leaves `r` non-finite or zero.
pub open spec fn peel_down32(x: u32, r: u32, m: u32, fuel: nat) -> (u32, u32)
    decreases fuel,
{
    if !le32(ONE_32, m) {
        (r, m)
    } else if eq32(add32_bits(x, m), ONE_32) {
        (r, m)
    } else if fuel == 0 {
        (r, m)
    } else {
        let m2 = sub32_bits(m, ONE_32);
        let r2 = mul32_bits(r, add32_bits(x, m2));
        if !is_finite32(r2) || is_zero32(r2) {
            (r2, m2)
        } else {
            peel_down32(x, r2, m2, (fuel - 1) as nat)
        }
    }
}

/// The state of the ascending peel (`m <= -1`), symmetric to
/// `peel_down32`: stop on `m > -1` or on `x + m == 1`; otherwise step to
/// r / (x + m) and m + 1, stopping after a step that leaves `r` non-finite
/// or zero.
pub open spec fn peel_up32(x: u32, r: u32, m: u32, fuel: nat) -> (u32, u32)
    decreases fuel,
{
    if !le32(m, NEG_ONE_32) {
        (r, m)
    } else if eq32(add32_bits(x, m), ONE_32) {
        (r, m)
    } else if fuel == 0 {
        (r, m)
    } else {
        let r2 = div32_bits(r, add32_bits(x, m));
        let m2 = add32_bits(m, ONE_32);
        if !is_finite32(r2) || is_zero32(r2) {
            (r2, m2)
        } else {
            peel_up32(x, r2, m2, (fuel - 1) as nat)
        }
    }
}

/// The peeled state: the descending peel run from ratio 1 and offset `m0`,
/// then the ascending peel run from where it stopped.
pub open spec fn poch_peel_spec32(x: u32, m0: u32) -> (u32, u32) {
    let d = peel_down32(x, ONE_32, m0, PEEL_FUEL as nat);
    peel_up32(x, d.0, d.1, PEEL_FUEL as nat)
}

/// Runs both peel loops from ratio 1 and offset `m0`, returning the peeled
/// ratio and offset.
pub fn poch_peel32(x: u32, m0: u32) -> (res: (u32, u32))
    ensures
        res == poch_peel_spec32(x, m0),
        !le32(ONE_32, m0) && !le32(m0, NEG_ONE_32) ==> res == (ONE_32, m0),
{
    let mut r: u32 = ONE_32;
    let mut m: u32 = m0;
    let mut fuel: u32 = PEEL_FUEL;
    loop
        invariant_except_break
            peel_down32(x, ONE_32, m0, PEEL_FUEL as nat) == peel_down32(x, r, m, fuel as nat),
        ensures
            (r, m) == peel_down32(x, ONE_32, m0, PEEL_FUEL as nat),
        decreases fuel,
    {
        if !le_bits32(ONE_32, m) {
            break;
        }
        if eq_bits32(add32(x, m), ONE_32) {
            break;
        }
        if fuel == 0 {
            break;
        }
        let m2 = sub32(m, ONE_32);
        let r2 = mul32(r, add32(x, m2));
        let stop = !is_finite_bits32(r2) || is_zero_bits32(r2);
        if stop {
            proof {
                assert(peel_down32(x, r, m, fuel as nat) == (r2, m2));
            }
            r = r2;
            m = m2;
            break;
        }
        proof {
            assert(peel_down32(x, r, m, fuel as nat) == peel_down32(x, r2, m2, (fuel - 1) as nat));
        }
        r = r2;
        m = m2;
        fuel = fuel - 1;
    }
    let ghost r_mid = r;
    let ghost m_mid = m;
    let mut fuel2: u32 = PEEL_FUEL;
    loop
        invariant_except_break
            peel_up32(x, r_mid, m_mid, PEEL_FUEL as nat) == peel_up32(x, r, m, fuel2 as nat),
        ensures
            (r, m) == peel_up32(x, r_mid, m_mid, PEEL_FUEL as nat),
        decreases fuel2,
    {
        if !le_bits32(m, NEG_ONE_32) {
            break;
        }
        if eq_bits32(add32(x, m), ONE_32) {
            break;
        }
        if fuel2 == 0 {
            break;
        }
        let r2 = div32(r, add32(x, m));
        let m2 = add32(m, ONE_32);
        let stop = !is_finite_bits32(r2) || is_zero_bits32(r2);
        if stop {
            proof {
                assert(peel_up32(x, r, m, fuel2 as nat) == (r2, m2));
            }
            r = r2;
            m = m2;
            break;
        }
        proof {
            assert(peel_up32(x, r, m, fuel2 as nat) == peel_up32(x, r2, m2, (fuel2 - 1) as nat));
        }
        r = r2;
        m = m2;
        fuel2 = fuel2 - 1;
    }
    (r, m)
}

/// What remains to be done after the peel.
pub enum PochOutcome32 {
    /// The result is this value.
    Done(u32),
    /// Apply the large-argument asymptotic expansion: the caller computes
    /// x^m and hands it to `poch_asymptotic32`.
    Asymptotic,
    /// Reconstruct through log-Gamma: the field is `x + m`; the caller
    /// computes exp(lgamma(x + m) - lgamma(x)) and hands it to
    /// `poch_fallback32`.
    Fallback(u32),
}

/// The decision taken on the peeled state (x, m, r): the ratio itself when
/// `m` reached zero; the asymptotic expansion when `x` exceeds 1.0e4 and
/// `|m| <= 1`; NaN when `x + m` is a pole, `x` is not, and `x + m != m`;
/// zero when `x` is a pole and `x + m` is not; else the log-Gamma fallback.
pub open spec fn poch_decide_spec32(x: u32, m: u32, r: u32) -> PochOutcome32 {
    let t = add32_bits(x, m);
    if is_zero32(m) {
        PochOutcome32::Done(r)
    } else if lt32(MIN_FOR_EXP_32, x) && le32(mag32(m), ONE_32) {
        PochOutcome32::Asymptotic
    } else if is_pole32(t) && !is_pole32(x) && !eq32(t, m) {
        PochOutcome32::Done(NAN_32)
    } else if !is_pole32(t) && is_pole32(x) {
        PochOutcome32::Done(ZERO_32)
    } else {
        PochOutcome32::Fallback(t)
    }
}

/// Decides what remains after the peel; see `poch_decide_spec32`.
pub fn poch_decide32(x: u32, m: u32, r: u32) -> (o: PochOutcome32)
    ensures
        o == poch_decide_spec32(x, m, r),
{
    if is_zero_bits32(m) {
        return PochOutcome32::Done(r);
    }
    if lt_bits32(MIN_FOR_EXP_32, x) && le_bits32(abs_bits32(m), ONE_32) {
        return PochOutcome32::Asymptotic;
    }
    let t = add32(x, m);
    let pole_t = is_gamma_pole32(t);
    let pole_x = is_gamma_pole32(x);
    if pole_t && !pole_x && !eq_bits32(t, m) {
        return PochOutcome32::Done(NAN_32);
    }
    if !pole_t && pole_x {
        return PochOutcome32::Done(ZERO_32);
    }
    PochOutcome32::Fallback(t)
}

/// The four-term asymptotic expansion
/// r * x^m * (1 + m(m-1)/(2x) + m(m-1)(m-2)(3m-1)/(24x^2)
///            + m^2(m-1)^2(m-2)(m-3)/(48x^3)),
/// with every operation placed as the evaluation performs it; `xpow_m` is
/// the caller-supplied x^m.
pub open spec fn poch_asym_spec32(x: u32, m: u32, r: u32, xpow_m: u32) -> u32 {
    let t1 = div32_bits(mul32_bits(m, sub32_bits(m, ONE_32)), mul32_bits(TWO_32, x));
    let n2 = mul32_bits(
        mul32_bits(mul32_bits(m, sub32_bits(m, ONE_32)), sub32_bits(m, TWO_32)),
        sub32_bits(mul32_bits(THREE_32, m), ONE_32),
    );
    let t2 = div32_bits(n2, mul32_bits(mul32_bits(TWENTY_FOUR_32, x), x));
    let n3 = mul32_bits(
        mul32_bits(
            mul32_bits(mul32_bits(mul32_bits(m, m), sub32_bits(m, ONE_32)), sub32_bits(m, ONE_32)),
            sub32_bits(m, TWO_32),
        ),
        sub32_bits(m, THREE_32),
    );
    let t3 = div32_bits(n3, mul32_bits(mul32_bits(mul32_bits(FORTY_EIGHT_32, x), x), x));
    let s = add32_bits(add32_bits(add32_bits(ONE_32, t1), t2), t3);
    mul32_bits(mul32_bits(r, xpow_m), s)
}

/// Finishes the asymptotic branch; see `poch_asym_spec32`.
pub fn poch_asymptotic32(x: u32, m: u32, r: u32, xpow_m: u32) -> (res: u32)
    ensures
        res == poch_asym_spec32(x, m, r, xpow_m),
{
    let t1 = div32(mul32(m, sub32(m, ONE_32)), mul32(TWO_32, x));
    let n2 = mul32(
        mul32(mul32(m, sub32(m, ONE_32)), sub32(m, TWO_32)),
        sub32(mul32(THREE_32, m), ONE_32),
    );
    let t2 = div32(n2, mul32(mul32(TWENTY_FOUR_32, x), x));
    let n3 = mul32(
        mul32(
            mul32(mul32(mul32(m, m), sub32(m, ONE_32)), sub32(m, ONE_32)),
            sub32(m, TWO_32),
        ),
        sub32(m, THREE_32),
    );
    let t3 = div32(n3, mul32(mul32(mul32(FORTY_EIGHT_32, x), x), x));
    let s = add32(add32(add32(ONE_32, t1), t2), t3);
    mul32(mul32(r, xpow_m), s)
}

/// The log-Gamma reconstruction r * e * gammasgn(x+m) * gammasgn(x), where
/// `e` is the caller-supplied exp(lgamma(x+m) - lgamma(x)).
pub open spec fn poch_fallback_spec32(x: u32, m: u32, r: u32, e: u32) -> u32 {
    mul32_bits(
        mul32_bits(mul32_bits(r, e), gammasgn_spec32(add32_bits(x, m))),
        gammasgn_spec32(x),
    )
}

/// Finishes the fallback branch; see `poch_fallback_spec32`.
pub fn poch_fallback32(x: u32, m: u32, r: u32, e: u32) -> (res: u32)
    ensures
        res == poch_fallback_spec32(x, m, r, e),
{
    let t = add32(x, m);
    mul32(mul32(mul32(r, e), gammasgn32(t)), gammasgn32(x))
}

/// Offset-zero rule: with a peeled offset of exactly zero (either sign), the
/// decision returns the peeled ratio unchanged; in particular the evaluation
/// of poch(x, 0) is exactly 1 for every x, pole or not.
pub proof fn lemma_poch_offset_zero32(x: u32, m: u32, r: u32)
    requires
        is_zero32(m),
    ensures
        poch_decide_spec32(x, m, r) == PochOutcome32::Done(r),
{
}

} // verus!
