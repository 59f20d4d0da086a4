//! The integration state machine on concrete scenarios: terminal states
//! reject further stepping, degenerate completion, the constant
//! interpolant, rejection behaviour and the step-size factor clamps.

use ode_core::base::ODESolver;
use ode_core::base::Output;
use ode_core::base::PolyCoefficients;
use ode_core::base::Status;
use ode_core::base::StepOutcome;
use ode_core::controller::accept_step;
use ode_core::controller::growth_factor;
use ode_core::controller::shrink_factor;
use ode_core::error::ErrorKind;
use ode_core::fp::Complex;
use ode_core::fp::Real;

fn r(x: f64) -> Real {
    Real::from_bits(x.to_bits())
}

fn c(re: f64) -> Complex {
    Complex::new(r(re), r(0.0))
}

fn accepted(t_new: f64, y_new: Vec<f64>, step_abs: f64, evals: u64) -> StepOutcome {
    StepOutcome::Accepted {
        t_new: r(t_new),
        y_new: y_new.into_iter().map(c).collect(),
        step_abs: r(step_abs),
        evals,
    }
}

#[test]
fn nan_initial_condition_is_rejected_at_construction() {
    let out = ODESolver::new(r(0.0), vec![c(1.0), c(f64::NAN)], r(5.0), false);
    assert!(matches!(out, Err(ErrorKind::NonFiniteValue)));
}

#[test]
fn empty_state_finishes_on_the_first_step() {
    let mut s = ODESolver::new(r(0.0), vec![], r(5.0), false).unwrap();
    assert_eq!(s.status, Status::Running);
    assert!(s.step(None).is_ok());
    assert_eq!(s.status, Status::Finished);
    assert_eq!(s.t.bits, 5.0f64.to_bits());
    assert_eq!(s.nfev, 0);
    assert_eq!(s.t_old.unwrap().bits, 0.0f64.to_bits());
}

#[test]
fn step_after_finished_fails_with_invalid_state() {
    let mut s = ODESolver::new(r(0.0), vec![], r(5.0), false).unwrap();
    s.step(None).unwrap();
    assert_eq!(s.status, Status::Finished);
    assert_eq!(s.step(None), Err(ErrorKind::InvalidState));
    assert_eq!(s.status, Status::Finished);
}

#[test]
fn step_after_failed_fails_with_invalid_state() {
    let mut s = ODESolver::new(r(0.0), vec![c(1.0)], r(5.0), false).unwrap();
    assert_eq!(
        s.step(Some(StepOutcome::TooSmall { evals: 2 })),
        Err(ErrorKind::StepTooSmall)
    );
    assert_eq!(s.status, Status::Failed);
    assert_eq!(s.step(None), Err(ErrorKind::InvalidState));
    assert_eq!(s.status, Status::Failed);
}

#[test]
fn rejection_to_failure_keeps_time_and_state() {
    let mut s = ODESolver::new(r(0.0), vec![c(1.0), c(2.0)], r(5.0), false).unwrap();
    let t_before = s.t;
    let y_before = s.y.clone();
    assert_eq!(
        s.step(Some(StepOutcome::TooSmall { evals: 7 })),
        Err(ErrorKind::StepTooSmall)
    );
    assert_eq!(s.t.bits, t_before.bits);
    assert_eq!(s.y, y_before);
    assert_eq!(s.nfev, 7);
    assert!(s.t_old.is_none());
}

#[test]
fn dense_output_before_any_step_fails_with_invalid_state() {
    let s = ODESolver::new(r(0.0), vec![c(1.0)], r(5.0), false).unwrap();
    assert!(matches!(s.dense_output(None), Err(ErrorKind::InvalidState)));
}

#[test]
fn zero_length_step_yields_the_constant_interpolant() {
    // t0 == t_bound: the degenerate step does not move the trajectory.
    let mut s = ODESolver::new(r(2.0), vec![c(3.0), c(-4.0)], r(2.0), false).unwrap();
    s.step(None).unwrap();
    assert_eq!(s.status, Status::Finished);
    let out = s.dense_output(None).unwrap();
    match &out {
        Output::Constant { value, t_min, t_max, .. } => {
            assert_eq!(value.len(), 2);
            assert_eq!(value[0].re.bits, 3.0f64.to_bits());
            assert_eq!(value[1].re.bits, (-4.0f64).to_bits());
            assert_eq!(t_min.bits, 2.0f64.to_bits());
            assert_eq!(t_max.bits, 2.0f64.to_bits());
        },
        Output::Polynomial { .. } => panic!("expected the constant interpolant"),
    }
    let at_edge = out.call(r(2.0));
    assert_eq!(at_edge[0].re.bits, 3.0f64.to_bits());
    assert_eq!(at_edge[1].re.bits, (-4.0f64).to_bits());
    let many = out.call_many(&vec![r(2.0), r(2.0)]);
    assert_eq!(many.len(), 2);
    assert_eq!(many[0][0].re.bits, 3.0f64.to_bits());
    assert_eq!(many[1][1].re.bits, (-4.0f64).to_bits());
}

#[test]
fn accepted_steps_advance_monotonically_and_finish_at_the_bound() {
    let mut s = ODESolver::new(r(0.0), vec![c(1.0)], r(5.0), false).unwrap();
    assert_eq!(s.direction, 1);
    let times = [1.0, 2.5, 5.0];
    let mut previous = 0.0f64;
    for (i, &t_new) in times.iter().enumerate() {
        s.step(Some(accepted(t_new, vec![0.5], t_new - previous, 6))).unwrap();
        assert!(previous <= t_new, "times must be monotone");
        assert_eq!(s.t.bits, t_new.to_bits());
        assert_eq!(s.t_old.unwrap().bits, previous.to_bits());
        if i + 1 < times.len() {
            assert_eq!(s.status, Status::Running);
        }
        previous = t_new;
    }
    assert_eq!(s.status, Status::Finished);
    assert_eq!(s.nfev, 18);
    assert_eq!(s.step_size().unwrap().bits, 2.5f64.to_bits());
}

#[test]
fn backward_integration_advances_towards_smaller_times() {
    let mut s = ODESolver::new(r(5.0), vec![c(1.0)], r(0.0), false).unwrap();
    assert_eq!(s.direction, -1);
    s.step(Some(accepted(2.0, vec![0.7], 3.0, 6))).unwrap();
    assert_eq!(s.status, Status::Running);
    s.step(Some(accepted(0.0, vec![0.6], 2.0, 6))).unwrap();
    assert_eq!(s.status, Status::Finished);
}

#[test]
fn growth_factor_is_clamped_into_its_bounds() {
    // A vanishing error norm grows by exactly MAX_FACTOR.
    assert_eq!(growth_factor(r(0.0), r(123.0), false).bits, 10.0f64.to_bits());
    // A large rescale is clamped down to MAX_FACTOR.
    assert_eq!(growth_factor(r(0.5), r(25.0), false).bits, 10.0f64.to_bits());
    // A moderate rescale passes through.
    assert_eq!(growth_factor(r(0.5), r(1.7), false).bits, 1.7f64.to_bits());
    // Right after a rejection no growth beyond one is allowed.
    assert_eq!(growth_factor(r(0.5), r(1.7), true).bits, 1.0f64.to_bits());
    assert_eq!(growth_factor(r(0.5), r(0.8), true).bits, 0.8f64.to_bits());
    // A rejected trial shrinks by at most MIN_FACTOR.
    assert_eq!(shrink_factor(r(0.05)).bits, 0.2f64.to_bits());
    assert_eq!(shrink_factor(r(0.6)).bits, 0.6f64.to_bits());
}

#[test]
fn acceptance_is_decided_by_the_unit_error_norm() {
    assert!(accept_step(r(0.0)));
    assert!(accept_step(r(0.999999)));
    assert!(!accept_step(r(1.0)));
    assert!(!accept_step(r(7.5)));
    assert!(!accept_step(r(f64::NAN)));
}

#[test]
fn a_moving_step_yields_the_polynomial_interpolant() {
    let mut s = ODESolver::new(r(0.0), vec![c(1.0)], r(5.0), false).unwrap();
    s.step(Some(accepted(1.0, vec![0.4], 1.0, 6))).unwrap();
    let coefficients = PolyCoefficients {
        h: r(1.0),
        q: vec![vec![c(1.0), c(-0.6)]],
    };
    let out = s.dense_output(Some(coefficients)).unwrap();
    match out {
        Output::Polynomial { t_old, t, t_min, t_max, h, q } => {
            assert_eq!(t_old.bits, 0.0f64.to_bits());
            assert_eq!(t.bits, 1.0f64.to_bits());
            assert_eq!(t_min.bits, 0.0f64.to_bits());
            assert_eq!(t_max.bits, 1.0f64.to_bits());
            assert_eq!(h.bits, 1.0f64.to_bits());
            assert_eq!(q.len(), 1);
            assert_eq!(q[0][1].re.bits, (-0.6f64).to_bits());
        },
        Output::Constant { .. } => panic!("expected the polynomial interpolant"),
    }
}

#[test]
fn the_calling_convention_flag_is_recorded() {
    let s = ODESolver::new(r(0.0), vec![c(1.0)], r(1.0), true).unwrap();
    assert!(s.vectorized);
    let s = ODESolver::new(r(0.0), vec![c(1.0)], r(1.0), false).unwrap();
    assert!(!s.vectorized);
}

#[test]
fn evaluation_counter_counts_single_column_calls() {
    let mut s = ODESolver::new(r(0.0), vec![c(1.0)], r(1.0), false).unwrap();
    assert_eq!(s.nfev, 0);
    s.record_fun_eval();
    s.record_fun_eval();
    assert_eq!(s.nfev, 2);
    assert_eq!(s.njev, 0);
    assert_eq!(s.nlu, 0);
}
