//! Core of an adaptive explicit Runge–Kutta ODE integrator.
//!
//! Every numeric value is carried as the bit pattern of an IEEE-754
//! double-precision float.  The library never performs floating-point
//! arithmetic itself: classification, sign manipulation and ordering are
//! bit-level operations, verified here, while rounding arithmetic (stage
//! sums, norms, powers) is supplied by the caller and enters the verified
//! state machine as explicit step outcomes.

pub mod base;
pub mod common;
pub mod controller;
pub mod error;
pub mod fp;
pub mod tableau;

pub use fp::Real;
