//! The Pochhammer symbol (rising factorial ratio) Gamma(x+m)/Gamma(x) for
//! binary64 arguments.
//!
//! The evaluation first peels integer unit steps off `m`, multiplying or
//! dividing the running ratio by `x + m` (with early exits when `x + m`
//! aligns on 1, or the ratio leaves the finite nonzero range). What remains
//! is decided from the peeled state: the ratio itself when `m` reached zero,
//! a large-argument asymptotic expansion, NaN or zero at mismatched poles, or
//! a log-Gamma reconstruction. The peel and every decision run verified
//! here; the caller performs the two outside steps (raising `x` to the power
//! `m`, and exponentiating the log-Gamma difference) and hands the values to
//! the verified finishing functions, whose contracts pin the result exactly.
use vstd::prelude::*;
use crate::arith::{add64, add64_bits, div64, div64_bits, mul64, mul64_bits, sub64, sub64_bits};
use crate::bits64::{
    MIN_FOR_EXP_64, NAN_64, NEG_ONE_64, ONE_64, THREE_64, TWO_64, TWENTY_FOUR_64, FORTY_EIGHT_64,
    ZERO_64, abs_bits64, eq64, eq_bits64, is_finite64, is_finite_bits64, is_zero64, is_zero_bits64,
    le64, le_bits64, lt64, lt_bits64, mag64,
};
use crate::gamma::{gammasgn64, gammasgn_spec64, is_gamma_pole64, is_pole64};

verus! {

/// The step budget for each peel loop. A peel that made this many unit
/// steps would have walked the offset down by 2^53, the full width of the
/// exactly-representable integers; the running ratio leaves the finite
/// nonzero range (and so stops the loop) long before that.
pub const PEEL_FUEL: u64 = 0x0020_0000_0000_0000;

/// The state of the descending peel (`m >= 1`) after running from (r, m) to
/// its stop, or for at most `fuel` steps: stop on `m < 1` or on
/// `x + m == 1`; otherwise step to m - 1 and r * (x + (m - 1)), stopping
/// after a step that leaves `r` non-finite or zero.
pub open spec fn peel_down64(x: u64, r: u64, m: u64, fuel: nat) -> (u64, u64)
    decreases fuel,
{
    if !le64(ONE_64, m) {
        (r, m)
    } else if eq64(add64_bits(x, m), ONE_64) {
        (r, m)
    } else if fuel == 0 {
        (r, m)
    } else {
        let m2 = sub64_bits(m, ONE_64);
        let r2 = mul64_bits(r, add64_bits(x, m2));
        if !is_finite64(r2) || is_zero64(r2) {
            (r2, m2)
        } else {
            peel_down64(x, r2, m2, (fuel - 1) as nat)
        }
    }
}

/// The state of the ascending peel (`m <= -1`), symmetric to
/// `peel_down64`: stop on `m > -1` or on `x + m == 1`; otherwise step to
/// r / (x + m) and m + 1, stopping after a step that leaves `r` non-finite
/// or zero.
pub open spec fn peel_up64(x: u64, r: u64, m: u64, fuel: nat) -> (u64, u64)
    decreases fuel,
{
    if !le64(m, NEG_ONE_64) {
        (r, m)
    } else if eq64(add64_bits(x, m), ONE_64) {
        (r, m)
    } else if fuel == 0 {
        (r, m)
    } else {
        let r2 = div64_bits(r, add64_bits(x, m));
        let m2 = add64_bits(m, ONE_64);
        if !is_finite64(r2) || is_zero64(r2) {
            (r2, m2)
        } else {
            peel_up64(x, r2, m2, (fuel - 1) as nat)
        }
    }
}

/// The peeled state: the descending peel run from ratio 1 and offset `m0`,
/// then the ascending peel run from where it stopped.
pub open spec fn poch_peel_spec64(x: u64, m0: u64) -> (u64, u64) {
    let d = peel_down64(x, ONE_64, m0, PEEL_FUEL as nat);
    peel_up64(x, d.0, d.1, PEEL_FUEL as nat)
}

/// Runs both peel loops from ratio 1 and offset `m0`, returning the peeled
/// ratio and offset.
pub fn poch_peel64(x: u64, m0: u64) -> (res: (u64, u64))
    ensures
        res == poch_peel_spec64(x, m0),
        !le64(ONE_64, m0) && !le64(m0, NEG_ONE_64) ==> res == (ONE_64, m0),
{
    let mut r: u64 = ONE_64;
    let mut m: u64 = m0;
    let mut fuel: u64 = PEEL_FUEL;
    loop
        invariant_except_break
            peel_down64(x, ONE_64, m0, PEEL_FUEL as nat) == peel_down64(x, r, m, fuel as nat),
        ensures
            (r, m) == peel_down64(x, ONE_64, m0, PEEL_FUEL as nat),
        decreases fuel,
    {
        if !le_bits64(ONE_64, m) {
            break;
        }
        if eq_bits64(add64(x, m), ONE_64) {
            break;
        }
        if fuel == 0 {
            break;
        }
        let m2 = sub64(m, ONE_64);
        let r2 = mul64(r, add64(x, m2));
        let stop = !is_finite_bits64(r2) || is_zero_bits64(r2);
        if stop {
            proof {
                assert(peel_down64(x, r, m, fuel as nat) == (r2, m2));
            }
            r = r2;
            m = m2;
            break;
        }
        proof {
            assert(peel_down64(x, r, m, fuel as nat) == peel_down64(x, r2, m2, (fuel - 1) as nat));
        }
        r = r2;
        m = m2;
        fuel = fuel - 1;
    }
    let ghost r_mid = r;
    let ghost m_mid = m;
    let mut fuel2: u64 = PEEL_FUEL;
    loop
        invariant_except_break
            peel_up64(x, r_mid, m_mid, PEEL_FUEL as nat) == peel_up64(x, r, m, fuel2 as nat),
        ensures
            (r, m) == peel_up64(x, r_mid, m_mid, PEEL_FUEL as nat),
        decreases fuel2,
    {
        if !le_bits64(m, NEG_ONE_64) {
            break;
        }
        if eq_bits64(add64(x, m), ONE_64) {
            break;
        }
        if fuel2 == 0 {
            break;
        }
        let r2 = div64(r, add64(x, m));
        let m2 = add64(m, ONE_64);
        let stop = !is_finite_bits64(r2) || is_zero_bits64(r2);
        if stop {
            proof {
                assert(peel_up64(x, r, m, fuel2 as nat) == (r2, m2));
            }
            r = r2;
            m = m2;
            break;
        }
        proof {
            assert(peel_up64(x, r, m, fuel2 as nat) == peel_up64(x, r2, m2, (fuel2 - 1) as nat));
        }
        r = r2;
        m = m2;
        fuel2 = fuel2 - 1;
    }
    (r, m)
}

/// What remains to be done after the peel.
pub enum PochOutcome {
    /// The result is this value.
    Done(u64),
    /// Apply the large-argument asymptotic expansion: the caller computes
    /// x^m and hands it to `poch_asymptotic64`.
    Asymptotic,
    /// Reconstruct through log-Gamma: the field is `x + m`; the caller
    /// computes exp(lgamma(x + m) - lgamma(x)) and hands it to
    /// `poch_fallback64`.
    Fallback(u64),
}

/// The decision taken on the peeled state (x, m, r): the ratio itself when
/// `m` reached zero; the asymptotic expansion when `x` exceeds 1.0e4 and
/// `|m| <= 1`; NaN when `x + m` is a pole, `x` is not, and `x + m != m`;
/// zero when `x` is a pole and `x + m` is not; else the log-Gamma fallback.
pub open spec fn poch_decide_spec64(x: u64, m: u64, r: u64) -> PochOutcome {
    let t = add64_bits(x, m);
    if is_zero64(m) {
        PochOutcome::Done(r)
    } else if lt64(MIN_FOR_EXP_64, x) && le64(mag64(m), ONE_64) {
        PochOutcome::Asymptotic
    } else if is_pole64(t) && !is_pole64(x) && !eq64(t, m) {
        PochOutcome::Done(NAN_64)
    } else if !is_pole64(t) && is_pole64(x) {
        PochOutcome::Done(ZERO_64)
    } else {
        PochOutcome::Fallback(t)
    }
}

/// Decides what remains after the peel; see `poch_decide_spec64`.
pub fn poch_decide64(x: u64, m: u64, r: u64) -> (o: PochOutcome)
    ensures
        o == poch_decide_spec64(x, m, r),
{
    if is_zero_bits64(m) {
        return PochOutcome::Done(r);
    }
    if lt_bits64(MIN_FOR_EXP_64, x) && le_bits64(abs_bits64(m), ONE_64) {
        return PochOutcome::Asymptotic;
    }
    let t = add64(x, m);
    let pole_t = is_gamma_pole64(t);
    let pole_x = is_gamma_pole64(x);
    if pole_t && !pole_x && !eq_bits64(t, m) {
        return PochOutcome::Done(NAN_64);
    }
    if !pole_t && pole_x {
        return PochOutcome::Done(ZERO_64);
    }
    PochOutcome::Fallback(t)
}

/// The four-term asymptotic expansion
/// r * x^m * (1 + m(m-1)/(2x) + m(m-1)(m-2)(3m-1)/(24x^2)
///            + m^2(m-1)^2(m-2)(m-3)/(48x^3)),
/// with every operation placed as the evaluation performs it; `xpow_m` is
/// the caller-supplied x^m.
pub open spec fn poch_asym_spec64(x: u64, m: u64, r: u64, xpow_m: u64) -> u64 {
    let t1 = div64_bits(mul64_bits(m, sub64_bits(m, ONE_64)), mul64_bits(TWO_64, x));
    let n2 = mul64_bits(
        mul64_bits(mul64_bits(m, sub64_bits(m, ONE_64)), sub64_bits(m, TWO_64)),
        sub64_bits(mul64_bits(THREE_64, m), ONE_64),
    );
    let t2 = div64_bits(n2, mul64_bits(mul64_bits(TWENTY_FOUR_64, x), x));
    let n3 = mul64_bits(
        mul64_bits(
            mul64_bits(mul64_bits(mul64_bits(m, m), sub64_bits(m, ONE_64)), sub64_bits(m, ONE_64)),
            sub64_bits(m, TWO_64),
        ),
        sub64_bits(m, THREE_64),
    );
    let t3 = div64_bits(n3, mul64_bits(mul64_bits(mul64_bits(FORTY_EIGHT_64, x), x), x));
    let s = add64_bits(add64_bits(add64_bits(ONE_64, t1), t2), t3);
    mul64_bits(mul64_bits(r, xpow_m), s)
}

/// Finishes the asymptotic branch; see `poch_asym_spec64`.
pub fn poch_asymptotic64(x: u64, m: u64, r: u64, xpow_m: u64) -> (res: u64)
    ensures
        res == poch_asym_spec64(x, m, r, xpow_m),
{
    let t1 = div64(mul64(m, sub64(m, ONE_64)), mul64(TWO_64, x));
    let n2 = mul64(
        mul64(mul64(m, sub64(m, ONE_64)), sub64(m, TWO_64)),
        sub64(mul64(THREE_64, m), ONE_64),
    );
    let t2 = div64(n2, mul64(mul64(TWENTY_FOUR_64, x), x));
    let n3 = mul64(
        mul64(
            mul64(mul64(mul64(m, m), sub64(m, ONE_64)), sub64(m, ONE_64)),
            sub64(m, TWO_64),
        ),
        sub64(m, THREE_64),
    );
    let t3 = div64(n3, mul64(mul64(mul64(FORTY_EIGHT_64, x), x), x));
    let s = add64(add64(add64(ONE_64, t1), t2), t3);
    mul64(mul64(r, xpow_m), s)
}

/// The log-Gamma reconstruction r * e * gammasgn(x+m) * gammasgn(x), where
/// `e` is the caller-supplied exp(lgamma(x+m) - lgamma(x)).
pub open spec fn poch_fallback_spec64(x: u64, m: u64, r: u64, e: u64) -> u64 {
    mul64_bits(
        mul64_bits(mul64_bits(r, e), gammasgn_spec64(add64_bits(x, m))),
        gammasgn_spec64(x),
    )
}

/// Finishes the fallback branch; see `poch_fallback_spec64`.
pub fn poch_fallback64(x: u64, m: u64, r: u64, e: u64) -> (res: u64)
    ensures
        res == poch_fallback_spec64(x, m, r, e),
{
    let t = add64(x, m);
    mul64(mul64(mul64(r, e), gammasgn64(t)), gammasgn64(x))
}

/// Offset-zero rule: with a peeled offset of exactly zero (either sign), the
/// decision returns the peeled ratio unchanged; in particular the evaluation
/// of poch(x, 0) is exactly 1 for every x, pole or not.
pub proof fn lemma_poch_offset_zero64(x: u64, m: u64, r: u64)
    requires
        is_zero64(m),
    ensures
        poch_decide_spec64(x, m, r) == PochOutcome::Done(r),
{
}

} // verus!
