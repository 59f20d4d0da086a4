//! Validation of solver options and the branch structure of the
//! initial-step-size heuristic.
//!
//! Every decision here is an IEEE comparison, carried out on bit
//! patterns by `fp`.  The heuristic's rounding arithmetic (quotients,
//! norms, powers) is supplied by the caller; the functions below choose
//! between the supplied candidates exactly as the heuristic prescribes.

use vstd::prelude::*;

use crate::error::ErrorKind;
use crate::fp::Complex;
use crate::fp::Real;
use crate::fp::spec_complex_finite;
use crate::fp::spec_le;
use crate::fp::spec_lt;

verus! {

/// Bits of `100 * EPS`, the floor below which a relative tolerance is
/// clamped (`EPS` the double-precision machine epsilon, `2^-52`).
pub const BITS_RTOL_FLOOR: u64 = 0x3D19_0000_0000_0000;
/// Bits of `1e-5`, the scale threshold of the initial-step heuristic.
pub const BITS_SCALE_THRESHOLD: u64 = 0x3EE4_F8B5_88E3_68F1;
/// Bits of `1e-6`, the heuristic's fallback first guess.
pub const BITS_H0_FALLBACK: u64 = 0x3EB0_C6F7_A0B5_ED8D;
/// Bits of `1e-15`, the derivative threshold of the heuristic.
pub const BITS_DERIVATIVE_THRESHOLD: u64 = 0x3CD2_03AF_9EE7_5616;

/// Positive zero.
pub open spec fn spec_zero() -> Real {
    Real { bits: crate::fp::BITS_ZERO }
}

/// Positive infinity.
pub open spec fn spec_inf() -> Real {
    Real { bits: crate::fp::BITS_INF }
}

/// The clamping floor `100 * EPS` for relative tolerances.
pub open spec fn spec_rtol_floor() -> Real {
    Real { bits: BITS_RTOL_FLOOR }
}

/// The `1e-5` threshold of the initial-step heuristic.
pub open spec fn spec_scale_threshold() -> Real {
    Real { bits: BITS_SCALE_THRESHOLD }
}

/// The `1e-6` fallback first guess of the initial-step heuristic.
pub open spec fn spec_h0_fallback() -> Real {
    Real { bits: BITS_H0_FALLBACK }
}

/// The `1e-15` derivative threshold of the initial-step heuristic.
pub open spec fn spec_derivative_threshold() -> Real {
    Real { bits: BITS_DERIVATIVE_THRESHOLD }
}

/// The smaller of two values by the IEEE order, first argument winning
/// ties and NaN comparisons.
pub open spec fn spec_min(a: Real, b: Real) -> Real {
    if spec_lt(b, a) {
        b
    } else {
        a
    }
}

/// The larger of two values by the IEEE order, first argument winning
/// ties and NaN comparisons.
pub open spec fn spec_max(a: Real, b: Real) -> Real {
    if spec_lt(a, b) {
        b
    } else {
        a
    }
}

/// An absolute tolerance: one bound for every component, or one bound
/// per component.
#[derive(Debug)]
pub enum Atol {
    Scalar(Real),
    Vector(Vec<Real>),
}

/// The absolute tolerance is admissible for a state of dimension `n`:
/// non-negative everywhere and, if per-component, of length `n`.
pub open spec fn spec_atol_valid(atol: Atol, n: nat) -> bool {
    match atol {
        Atol::Scalar(a) => spec_le(spec_zero(), a),
        Atol::Vector(v) => v@.len() == n && forall|i: int|
            0 <= i < v@.len() ==> spec_le(spec_zero(), #[trigger] v@[i]),
    }
}

/// Checks that a proposed maximal step size is positive.
pub fn validate_max_step(max_step: Real) -> (r: Result<Real, ErrorKind>)
    ensures
        r == (if spec_lt(spec_zero(), max_step) {
            Ok::<Real, ErrorKind>(max_step)
        } else {
            Err::<Real, ErrorKind>(ErrorKind::InvalidArgument)
        }),
{
    if Real::zero().lt(&max_step) {
        Ok(max_step)
    } else {
        Err(ErrorKind::InvalidArgument)
    }
}

/// Checks that a proposed first step is positive and no longer than the
/// integration interval; `interval_abs` is the interval's length
/// `|t_bound - t0|`, computed by the caller.
pub fn validate_first_step(first_step: Real, interval_abs: Real) -> (r: Result<
    Real,
    ErrorKind,
>)
    ensures
        r == (if spec_lt(spec_zero(), first_step) && spec_le(first_step, interval_abs) {
            Ok::<Real, ErrorKind>(first_step)
        } else {
            Err::<Real, ErrorKind>(ErrorKind::InvalidArgument)
        }),
{
    if Real::zero().lt(&first_step) && first_step.le(&interval_abs) {
        Ok(first_step)
    } else {
        Err(ErrorKind::InvalidArgument)
    }
}

/// Checks the tolerances for a state of dimension `n`.  A relative
/// tolerance below `100 * EPS` is clamped up to that floor; the second
/// component of the result says whether that happened, so the caller can
/// surface a warning.  The absolute tolerance must be non-negative
/// everywhere and, if per-component, of length `n`.
pub fn validate_tol(rtol: Real, atol: &Atol, n: usize) -> (r: Result<
    (Real, bool),
    ErrorKind,
>)
    ensures
        r == (if spec_atol_valid(*atol, n as nat) {
            Ok::<(Real, bool), ErrorKind>(
                (
                    spec_max(spec_rtol_floor(), rtol),
                    spec_lt(rtol, spec_rtol_floor()),
                ),
            )
        } else {
            Err::<(Real, bool), ErrorKind>(ErrorKind::InvalidArgument)
        }),
{
    let floor = Real::from_bits(BITS_RTOL_FLOOR);
    let warned = rtol.lt(&floor);
    let clamped = floor.max_val(&rtol);
    match atol {
        Atol::Scalar(a) => {
            if Real::zero().le(a) {
                Ok((clamped, warned))
            } else {
                Err(ErrorKind::InvalidArgument)
            }
        },
        Atol::Vector(v) => {
            if v.len() != n {
                return Err(ErrorKind::InvalidArgument);
            }
            let mut i: usize = 0;
            while i < v.len()
                invariant
                    *atol == Atol::Vector(*v),
                    0 <= i <= v@.len(),
                    forall|j: int| 0 <= j < i ==> spec_le(spec_zero(), #[trigger] v@[j]),
                decreases v@.len() - i,
            {
                if !Real::zero().le(&v[i]) {
                    return Err(ErrorKind::InvalidArgument);
                }
                i = i + 1;
            }
            Ok((clamped, warned))
        },
    }
}

/// Checks that an initial condition is finite in every component.
pub fn validate_initial_condition(y0: &Vec<Complex>) -> (r: Result<(), ErrorKind>)
    ensures
        r == (if forall|i: int| 0 <= i < y0@.len() ==> spec_complex_finite(#[trigger] y0@[i]) {
            Ok::<(), ErrorKind>(())
        } else {
            Err::<(), ErrorKind>(ErrorKind::NonFiniteValue)
        }),
{
    let mut i: usize = 0;
    while i < y0.len()
        invariant
            0 <= i <= y0@.len(),
            forall|j: int| 0 <= j < i ==> spec_complex_finite(#[trigger] y0@[j]),
        decreases y0@.len() - i,
    {
        if !y0[i].is_finite() {
            return Err(ErrorKind::NonFiniteValue);
        }
        i = i + 1;
    }
    Ok(())
}

/// For a zero-dimensional state the initial-step heuristic imposes no
/// constraint and answers positive infinity at once; otherwise the
/// heuristic must be run.
pub fn initial_step_empty(n: usize) -> (r: Option<Real>)
    ensures
        r == (if n == 0 {
            Some(spec_inf())
        } else {
            None::<Real>
        }),
{
    if n == 0 {
        Some(Real::infinity())
    } else {
        None
    }
}

/// Chooses the heuristic's first step guess `h0`: the `1e-6` fallback
/// when either norm `d0` or `d1` is below the scale threshold, else the
/// caller-computed quotient `0.01 * d0 / d1`.
pub fn initial_h0_choice(d0: Real, d1: Real, h0_quotient: Real) -> (r: Real)
    ensures
        r == (if spec_lt(d0, spec_scale_threshold()) || spec_lt(d1, spec_scale_threshold()) {
            spec_h0_fallback()
        } else {
            h0_quotient
        }),
{
    let threshold = Real::from_bits(BITS_SCALE_THRESHOLD);
    if d0.lt(&threshold) || d1.lt(&threshold) {
        Real::from_bits(BITS_H0_FALLBACK)
    } else {
        h0_quotient
    }
}

/// Chooses the heuristic's refined step `h1`: when both derivative
/// norms `d1` and `d2` are at most `1e-15` the step is the fallback or
/// the caller-computed `h0 * 1e-3`, whichever is larger; otherwise it is
/// the caller-computed power `(0.01 / max(d1, d2))^(1 / (order + 1))`.
pub fn initial_h1_choice(d1: Real, d2: Real, h0_scaled: Real, h1_powered: Real) -> (r: Real)
    ensures
        r == (if spec_le(d1, spec_derivative_threshold()) && spec_le(
            d2,
            spec_derivative_threshold(),
        ) {
            spec_max(spec_h0_fallback(), h0_scaled)
        } else {
            h1_powered
        }),
{
    let threshold = Real::from_bits(BITS_DERIVATIVE_THRESHOLD);
    if d1.le(&threshold) && d2.le(&threshold) {
        Real::from_bits(BITS_H0_FALLBACK).max_val(&h0_scaled)
    } else {
        h1_powered
    }
}

/// The heuristic's final answer: the smallest of `100 * h0` (computed by
/// the caller), the refined step `h1`, and the maximal step bound.
pub fn initial_step_final(h0_hundred: Real, h1: Real, max_step: Real) -> (r: Real)
    ensures
        r == spec_min(spec_min(h0_hundred, h1), max_step),
{
    h0_hundred.min_val(&h1).min_val(&max_step)
}

} // verus!
