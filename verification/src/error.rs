//! Failure kinds reported by the integrator core.

use vstd::prelude::*;

verus! {

/// Why a call was rejected.
///
/// `InvalidArgument` and `NonFiniteValue` arise from construction-time
/// validation; `InvalidState` from calling an operation in a state that
/// does not allow it; `StepTooSmall` is the one runtime integration
/// failure, raised when the step size falls below the numeric floor.
#[derive(Clone, Copy, PartialEq, Eq, Structural, Debug)]
pub enum ErrorKind {
    InvalidArgument,
    NonFiniteValue,
    InvalidState,
    StepTooSmall,
}

} // verus!
