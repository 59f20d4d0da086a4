//! Decisions of the adaptive step-size controller.
//!
//! One trial step yields a tolerance-normalized error norm.  The
//! controller accepts the step exactly when that norm is below one, and
//! rescales the step magnitude by a factor built from the norm: the
//! caller computes the rounding arithmetic `SAFETY * norm^(-1 / (q + 1))`
//! and passes it in as `raw`; the clamping against the growth bounds, the
//! special case of a zero norm, and the no-growth rule right after a
//! rejection are decided here.

use vstd::prelude::*;

use crate::common::spec_max;
use crate::common::spec_min;
use crate::common::spec_zero;
use crate::fp::BITS_ONE;
use crate::fp::Real;
use crate::fp::lemma_positive_bits_ordered;
use crate::fp::spec_eq;
use crate::fp::spec_le;
use crate::fp::spec_lt;

verus! {

/// Bits of `0.2`, the largest allowed shrink per rejection.
pub const BITS_MIN_FACTOR: u64 = 0x3FC9_9999_9999_999A;
/// Bits of `10.0`, the largest allowed growth per accepted step.
pub const BITS_MAX_FACTOR: u64 = 0x4024_0000_0000_0000;
/// Bits of `0.9`, the safety factor callers put into `raw`.
pub const BITS_SAFETY: u64 = 0x3FEC_CCCC_CCCC_CCCD;

/// The value one.
pub open spec fn spec_one() -> Real {
    Real { bits: BITS_ONE }
}

/// The lower clamp `MIN_FACTOR`.
pub open spec fn spec_min_factor() -> Real {
    Real { bits: BITS_MIN_FACTOR }
}

/// The upper clamp `MAX_FACTOR`.
pub open spec fn spec_max_factor() -> Real {
    Real { bits: BITS_MAX_FACTOR }
}

/// The factor applied to the step magnitude after an accepted step:
/// `MAX_FACTOR` for a vanishing error norm, else `raw` clamped to at
/// most `MAX_FACTOR`; never above one right after a rejection.
pub open spec fn spec_growth_factor(error_norm: Real, raw: Real, previous_rejected: bool) -> Real {
    let base = if spec_eq(error_norm, spec_zero()) {
        spec_max_factor()
    } else {
        spec_min(spec_max_factor(), raw)
    };
    if previous_rejected {
        spec_min(base, spec_one())
    } else {
        base
    }
}

/// A trial step is accepted exactly when its error norm is below one.
pub fn accept_step(error_norm: Real) -> (r: bool)
    ensures
        r == spec_lt(error_norm, spec_one()),
{
    error_norm.lt(&Real::one())
}

/// Clamps the caller-computed rescale `raw` after an accepted step.
pub fn growth_factor(error_norm: Real, raw: Real, previous_rejected: bool) -> (r: Real)
    ensures
        r == spec_growth_factor(error_norm, raw, previous_rejected),
{
    let base = if error_norm.eq_val(&Real::zero()) {
        Real::from_bits(BITS_MAX_FACTOR)
    } else {
        Real::from_bits(BITS_MAX_FACTOR).min_val(&raw)
    };
    if previous_rejected {
        base.min_val(&Real::one())
    } else {
        base
    }
}

/// Clamps the caller-computed rescale `raw` after a rejected step: the
/// magnitude shrinks by no more than `MIN_FACTOR`.
pub fn shrink_factor(raw: Real) -> (r: Real)
    ensures
        r == spec_max(spec_min_factor(), raw),
{
    Real::from_bits(BITS_MIN_FACTOR).max_val(&raw)
}

/// The step-size factor of an accepted step lies between `MIN_FACTOR`
/// and `MAX_FACTOR`, whatever the error norm and whether or not the
/// previous trial was rejected — provided the caller's rescale `raw` is
/// at least `MIN_FACTOR`, which the safety-factor formula guarantees for
/// an accepted step.
pub proof fn lemma_growth_factor_bounds(error_norm: Real, raw: Real, previous_rejected: bool)
    requires
        spec_le(spec_min_factor(), raw),
    ensures
        spec_le(spec_min_factor(), spec_growth_factor(error_norm, raw, previous_rejected)),
        spec_le(spec_growth_factor(error_norm, raw, previous_rejected), spec_max_factor()),
{
    lemma_positive_bits_ordered(BITS_MIN_FACTOR, BITS_ONE);
    lemma_positive_bits_ordered(BITS_ONE, BITS_MAX_FACTOR);
    lemma_positive_bits_ordered(BITS_MIN_FACTOR, BITS_MAX_FACTOR);
    lemma_positive_bits_ordered(BITS_MAX_FACTOR, BITS_MAX_FACTOR);
    lemma_positive_bits_ordered(BITS_ONE, BITS_ONE);
    lemma_positive_bits_ordered(BITS_MIN_FACTOR, BITS_MIN_FACTOR);
}

/// The step-size factor of a rejected step lies between `MIN_FACTOR`
/// and `MAX_FACTOR` — provided the caller's rescale `raw` is no more
/// than `MAX_FACTOR`, which the safety-factor formula guarantees for a
/// rejected step (there it is below one).
pub proof fn lemma_shrink_factor_bounds(raw: Real)
    requires
        spec_le(raw, spec_max_factor()),
    ensures
        spec_le(spec_min_factor(), spec_max(spec_min_factor(), raw)),
        spec_le(spec_max(spec_min_factor(), raw), spec_max_factor()),
{
    lemma_positive_bits_ordered(BITS_MIN_FACTOR, BITS_MAX_FACTOR);
    lemma_positive_bits_ordered(BITS_MIN_FACTOR, BITS_MIN_FACTOR);
    lemma_positive_bits_ordered(BITS_MAX_FACTOR, BITS_MAX_FACTOR);
}

} // verus!
