//! The integration state machine and the dense-output interpolants.
//!
//! The machine owns the trajectory state `t`, `y`, the target `t_bound`,
//! the integration direction, the status and the evaluation counters.
//! One call to `step` advances by one accepted step.  The rounding
//! arithmetic of a trial step — stage sums, the error norm, the retry
//! loop — is carried out by the host on the tableau's constants; what it
//! found enters here as an explicit `StepOutcome`, and every state
//! transition, freeze and counter rule is decided and verified in this
//! module.  The ghost sequence `hist` records every value `t` has taken,
//! so that the monotonicity of the accepted times is a machine invariant
//! rather than a promise.

use vstd::prelude::*;

use crate::common::spec_max;
use crate::common::spec_min;
use crate::error::ErrorKind;
use crate::fp::Complex;
use crate::fp::Real;
use crate::fp::spec_complex_finite;
use crate::fp::spec_eq;
use crate::fp::spec_is_finite;
use crate::fp::spec_le;

verus! {

/// Where the machine stands: `Running` until a step reaches the bound
/// (`Finished`) or fails (`Failed`); the terminal states freeze `t`, `y`.
#[derive(Clone, Copy, PartialEq, Eq, Structural, Debug)]
pub enum Status {
    Running,
    Finished,
    Failed,
}

/// What the host's trial-step loop found: an accepted step with its new
/// time, new state, the magnitude `|t_new - t_old|` and the number of
/// derivative evaluations spent; or the finding that the step size fell
/// below the numeric floor before a step could be accepted.
pub enum StepOutcome {
    Accepted { t_new: Real, y_new: Vec<Complex>, step_abs: Real, evals: u64 },
    TooSmall { evals: u64 },
}

/// `a` does not lie past `b` in the direction of integration.
pub open spec fn spec_dir_le(direction: i8, a: Real, b: Real) -> bool {
    if direction == 1 {
        spec_le(a, b)
    } else {
        spec_le(b, a)
    }
}

/// `t` has reached the bound: `direction * (t - t_bound) >= 0`.  For
/// finite doubles the difference is zero exactly when the operands are
/// equal, so the sign test coincides with the direct comparison used
/// here.
pub open spec fn spec_reached(direction: i8, t: Real, t_bound: Real) -> bool {
    if direction == 1 {
        spec_le(t_bound, t)
    } else {
        spec_le(t, t_bound)
    }
}

/// The machine accepts an outcome only if the host's loop kept its side
/// of the step contract: an accepted step carries a finite new time that
/// advances in the integration direction without overshooting the bound,
/// a state of the machine's dimension, and evaluation counts that fit
/// the counter.
pub open spec fn spec_outcome_ok(s: ODESolver, o: StepOutcome) -> bool {
    match o {
        StepOutcome::Accepted { t_new, y_new, step_abs, evals } => {
            &&& spec_is_finite(t_new)
            &&& spec_dir_le(s.direction, s.t, t_new)
            &&& spec_dir_le(s.direction, t_new, s.t_bound)
            &&& y_new@.len() == s.n
            &&& s.nfev + evals <= u64::MAX
        },
        StepOutcome::TooSmall { evals } => s.nfev + evals <= u64::MAX,
    }
}

/// An adaptive ODE integrator advancing a state vector from `t0` towards
/// `t_bound` by accepted steps.
pub struct ODESolver {
    /// Current time.
    pub t: Real,
    /// Time before the last accepted step; absent until one was taken.
    pub t_old: Option<Real>,
    /// Current state vector.
    pub y: Vec<Complex>,
    /// Target end time.
    pub t_bound: Real,
    /// `+1` when integrating towards larger times, `-1` otherwise.
    pub direction: i8,
    /// Dimension of the state vector.
    pub n: usize,
    /// Where the machine stands.
    pub status: Status,
    /// Derivative evaluations spent so far.
    pub nfev: u64,
    /// Jacobian evaluations: reserved for implicit methods, always zero.
    pub njev: u64,
    /// LU decompositions: reserved for implicit methods, always zero.
    pub nlu: u64,
    /// Magnitude of the last accepted step; absent until one was taken.
    pub h_previous: Option<Real>,
    /// Whether the user's derivative function takes batched columns.
    pub vectorized: bool,
    /// Every value `t` has taken, oldest first.
    pub hist: Ghost<Seq<Real>>,
}

impl ODESolver {
    /// The machine's invariant: a unit direction, a state of the stated
    /// dimension, finite times that do not lie past the bound, counters
    /// of implicit methods pinned to zero, and a time history that ends
    /// at `t` and is monotone in the integration direction.
    pub open spec fn wf(self) -> bool {
        &&& (self.direction == 1i8 || self.direction == -1i8)
        &&& self.n == self.y@.len()
        &&& spec_is_finite(self.t)
        &&& spec_is_finite(self.t_bound)
        &&& spec_dir_le(self.direction, self.t, self.t_bound)
        &&& (self.t_old matches Some(t) ==> spec_is_finite(t))
        &&& self.njev == 0
        &&& self.nlu == 0
        &&& self.hist@.len() >= 1
        &&& self.hist@.last() == self.t
        &&& forall|i: int|
            0 <= i < self.hist@.len() - 1 ==> spec_dir_le(
                self.direction,
                #[trigger] self.hist@[i],
                self.hist@[i + 1],
            )
    }

    /// Builds a machine at `t0` with state `y0`, headed for `t_bound`.
    /// Construction fails, and no machine exists, when any component of
    /// the initial condition is non-finite.
    pub fn new(t0: Real, y0: Vec<Complex>, t_bound: Real, vectorized: bool) -> (r: Result<
        ODESolver,
        ErrorKind,
    >)
        requires
            spec_is_finite(t0),
            spec_is_finite(t_bound),
        ensures
            r is Ok <==> (forall|i: int|
                0 <= i < y0@.len() ==> spec_complex_finite(#[trigger] y0@[i])),
            r matches Err(k) ==> k == ErrorKind::NonFiniteValue,
            r matches Ok(s) ==> {
                &&& s.wf()
                &&& s.t == t0
                &&& s.t_old is None
                &&& s.y@ == y0@
                &&& s.t_bound == t_bound
                &&& s.direction == (if spec_le(t0, t_bound) { 1i8 } else { -1i8 })
                &&& s.n == y0@.len()
                &&& s.status == Status::Running
                &&& s.nfev == 0
                &&& s.njev == 0
                &&& s.nlu == 0
                &&& s.h_previous is None
                &&& s.vectorized == vectorized
                &&& s.hist@ =~= seq![t0]
            },
    {
        if let Err(k) = crate::common::validate_initial_condition(&y0) {
            return Err(k);
        }
        let direction: i8 = if t0.le(&t_bound) {
            1
        } else {
            -1
        };
        let n = y0.len();
        let ghost hist0: Seq<Real> = seq![t0];
        Ok(
            ODESolver {
                t: t0,
                t_old: None,
                y: y0,
                t_bound,
                direction,
                n,
                status: Status::Running,
                nfev: 0,
                njev: 0,
                nlu: 0,
                h_previous: None,
                vectorized,
                hist: Ghost(hist0),
            },
        )
    }

    /// Advances by one accepted step.  A machine no longer running
    /// rejects the call and stays frozen.  A zero-dimensional state or a
    /// trajectory already at the bound completes degenerately, spending
    /// no evaluation.  Otherwise the host's outcome is committed: an
    /// accepted step moves `t`, `y` forward and finishes the machine
    /// when the bound is reached; a step that fell below the numeric
    /// floor leaves `t`, `y` untouched and fails the machine.
    pub fn step(&mut self, outcome: Option<StepOutcome>) -> (r: Result<(), ErrorKind>)
        requires
            old(self).wf(),
            (old(self).status == Status::Running && old(self).n != 0 && !spec_eq(
                old(self).t,
                old(self).t_bound,
            )) ==> (outcome matches Some(o) && spec_outcome_ok(*old(self), o)),
        ensures
            final(self).wf(),
            final(self).t_bound == old(self).t_bound,
            final(self).direction == old(self).direction,
            final(self).n == old(self).n,
            final(self).vectorized == old(self).vectorized,
            final(self).njev == 0,
            final(self).nlu == 0,
            spec_dir_le(old(self).direction, old(self).t, final(self).t),
            old(self).status != Status::Running ==> r == Err::<(), ErrorKind>(
                ErrorKind::InvalidState,
            ) && *final(self) == *old(self),
            (old(self).status == Status::Running && (old(self).n == 0 || spec_eq(
                old(self).t,
                old(self).t_bound,
            ))) ==> {
                &&& r is Ok
                &&& final(self).status == Status::Finished
                &&& final(self).t == old(self).t_bound
                &&& final(self).t_old == Some(old(self).t)
                &&& final(self).y@ == old(self).y@
                &&& final(self).nfev == old(self).nfev
                &&& final(self).h_previous == old(self).h_previous
                &&& final(self).hist@ == old(self).hist@.push(final(self).t)
            },
            (old(self).status == Status::Running && !(old(self).n == 0 || spec_eq(
                old(self).t,
                old(self).t_bound,
            ))) ==> match outcome {
                Some(o) => match o {
                    StepOutcome::Accepted { t_new, y_new, step_abs, evals } => {
                        &&& r is Ok
                        &&& final(self).t == t_new
                        &&& final(self).t_old == Some(old(self).t)
                        &&& final(self).y@ == y_new@
                        &&& final(self).nfev == old(self).nfev + evals
                        &&& final(self).h_previous == Some(step_abs)
                        &&& final(self).hist@ == old(self).hist@.push(t_new)
                        &&& final(self).status == (if spec_reached(
                            old(self).direction,
                            t_new,
                            old(self).t_bound,
                        ) {
                            Status::Finished
                        } else {
                            Status::Running
                        })
                    },
                    StepOutcome::TooSmall { evals } => {
                        &&& r == Err::<(), ErrorKind>(ErrorKind::StepTooSmall)
                        &&& final(self).status == Status::Failed
                        &&& final(self).t == old(self).t
                        &&& final(self).t_old == old(self).t_old
                        &&& final(self).y@ == old(self).y@
                        &&& final(self).nfev == old(self).nfev + evals
                        &&& final(self).h_previous == old(self).h_previous
                        &&& final(self).hist == old(self).hist
                    },
                },
                None => false,
            },
    {
        match self.status {
            Status::Finished => Err(ErrorKind::InvalidState),
            Status::Failed => Err(ErrorKind::InvalidState),
            Status::Running => {
                if self.n == 0 || self.t.eq_val(&self.t_bound) {
                    self.t_old = Some(self.t);
                    self.t = self.t_bound;
                    self.status = Status::Finished;
                    self.hist = Ghost(self.hist@.push(self.t_bound));
                    Ok(())
                } else {
                    match outcome {
                        Some(StepOutcome::Accepted { t_new, y_new, step_abs, evals }) => {
                            self.t_old = Some(self.t);
                            self.t = t_new;
                            self.y = y_new;
                            self.nfev = self.nfev + evals;
                            self.h_previous = Some(step_abs);
                            if self.reached_bound() {
                                self.status = Status::Finished;
                            }
                            self.hist = Ghost(self.hist@.push(t_new));
                            Ok(())
                        },
                        Some(StepOutcome::TooSmall { evals }) => {
                            self.nfev = self.nfev + evals;
                            self.status = Status::Failed;
                            Err(ErrorKind::StepTooSmall)
                        },
                        None => unreached(),
                    }
                }
            },
        }
    }

    /// `t` has reached the bound in the integration direction.
    fn reached_bound(&self) -> (r: bool)
        requires
            self.direction == 1i8 || self.direction == -1i8,
        ensures
            r == spec_reached(self.direction, self.t, self.t_bound),
    {
        if self.direction == 1 {
            self.t_bound.le(&self.t)
        } else {
            self.t.le(&self.t_bound)
        }
    }

    /// Counts one evaluation of the user's derivative function: the one
    /// state change the function adapter makes.
    pub fn record_fun_eval(&mut self)
        requires
            old(self).nfev < u64::MAX,
        ensures
            final(self).nfev == old(self).nfev + 1,
            final(self).t == old(self).t,
            final(self).t_old == old(self).t_old,
            final(self).y@ == old(self).y@,
            final(self).t_bound == old(self).t_bound,
            final(self).direction == old(self).direction,
            final(self).n == old(self).n,
            final(self).status == old(self).status,
            final(self).njev == old(self).njev,
            final(self).nlu == old(self).nlu,
            final(self).h_previous == old(self).h_previous,
            final(self).vectorized == old(self).vectorized,
            final(self).hist == old(self).hist,
    {
        self.nfev = self.nfev + 1;
    }

    /// The magnitude of the last accepted step, absent before one.
    pub fn step_size(&self) -> (r: Option<Real>)
        ensures
            r == self.h_previous,
    {
        self.h_previous
    }
}

/// Across a whole integration the times the machine has visited are
/// monotone in the integration direction: of any two recorded times,
/// the earlier one does not lie past the later one.  Single steps
/// advance in direction by the machine's invariant; this extends that
/// ordering over the whole history.
pub proof fn lemma_times_monotone(s: ODESolver, i: int, j: int)
    requires
        s.wf(),
        0 <= i <= j < s.hist@.len(),
    ensures
        spec_dir_le(s.direction, s.hist@[i], s.hist@[j]),
    decreases j - i,
{
    if i < j {
        lemma_times_monotone(s, i, j - 1);
        assert(spec_dir_le(s.direction, s.hist@[j - 1], s.hist@[j]));
    }
}

/// A continuous approximation of the trajectory over one accepted step:
/// a constant for a step of zero length or a zero-dimensional state, a
/// polynomial in the normalized time otherwise.  Either holds its
/// validity interval `[t_min, t_max]`.
pub enum Output {
    Constant { t_old: Real, t: Real, t_min: Real, t_max: Real, value: Vec<Complex> },
    Polynomial {
        t_old: Real,
        t: Real,
        t_min: Real,
        t_max: Real,
        /// The normalization factor `t - t_old` of the query time.
        h: Real,
        /// Interpolation coefficients, one row per state component.
        q: Vec<Vec<Complex>>,
    },
}

/// A fresh vector holding the same components.
fn copy_components(v: &Vec<Complex>) -> (r: Vec<Complex>)
    ensures
        r@ == v@,
{
    let mut r: Vec<Complex> = Vec::new();
    let mut i: usize = 0;
    while i < v.len()
        invariant
            0 <= i <= v@.len(),
            r@ =~= v@.subrange(0, i as int),
        decreases v@.len() - i,
    {
        r.push(v[i]);
        i = i + 1;
    }
    proof {
        assert(r@ =~= v@);
    }
    r
}

impl Output {
    /// Evaluates a constant interpolant at one query time: the value is
    /// the unchanged state, whatever the time.
    pub fn call(&self, t_query: Real) -> (r: &Vec<Complex>)
        requires
            self matches Output::Constant { .. },
        ensures
            self matches Output::Constant { value, .. } ==> r@ == value@,
    {
        match self {
            Output::Constant { value, .. } => value,
            Output::Polynomial { .. } => unreached(),
        }
    }

    /// Evaluates a constant interpolant at a sequence of query times:
    /// one column per time, each the unchanged state.
    pub fn call_many(&self, ts: &Vec<Real>) -> (r: Vec<Vec<Complex>>)
        requires
            self matches Output::Constant { .. },
        ensures
            r@.len() == ts@.len(),
            self matches Output::Constant { value, .. } ==> forall|i: int|
                0 <= i < r@.len() ==> (#[trigger] r@[i])@ == value@,
    {
        match self {
            Output::Constant { value, .. } => {
                let mut r: Vec<Vec<Complex>> = Vec::new();
                let mut i: usize = 0;
                while i < ts.len()
                    invariant
                        0 <= i <= ts@.len(),
                        r@.len() == i,
                        forall|j: int| 0 <= j < i ==> (#[trigger] r@[j])@ == value@,
                    decreases ts@.len() - i,
                {
                    r.push(copy_components(value));
                    i = i + 1;
                }
                r
            },
            Output::Polynomial { .. } => unreached(),
        }
    }
}

/// The coefficients of a polynomial interpolant, computed by the host
/// from the stage derivatives and the tableau's dense-output matrix.
pub struct PolyCoefficients {
    /// The normalization factor `t - t_old`.
    pub h: Real,
    /// The matrix `Q`, one row per state component.
    pub q: Vec<Vec<Complex>>,
}

/// The last accepted step of the machine had zero length, or its state
/// is zero-dimensional, so the trajectory did not move over it.
pub open spec fn spec_degenerate_step(s: ODESolver) -> bool {
    match s.t_old {
        None => false,
        Some(t_old) => s.n == 0 || spec_eq(s.t, t_old),
    }
}

/// What `dense_output` hands out: the invalid-state rejection before a
/// first step, the constant interpolant holding the unchanged `y` over a
/// degenerate step, and otherwise the polynomial built from the
/// host-computed coefficients, always over the interval between `t_old`
/// and `t`.
pub open spec fn spec_dense_output_post(
    s: ODESolver,
    poly: Option<PolyCoefficients>,
    r: Result<Output, ErrorKind>,
) -> bool {
    match s.t_old {
        None => r == Err::<Output, ErrorKind>(ErrorKind::InvalidState),
        Some(t_old) => {
            if s.n == 0 || spec_eq(s.t, t_old) {
                r matches Ok(o) && (o matches Output::Constant {
                    t_old: o_t_old,
                    t: o_t,
                    t_min,
                    t_max,
                    value,
                } && o_t_old == t_old && o_t == s.t && t_min == spec_min(t_old, s.t) && t_max
                    == spec_max(t_old, s.t) && value@ == s.y@)
            } else {
                match poly {
                    Some(p) => r matches Ok(o) && (o matches Output::Polynomial {
                        t_old: o_t_old,
                        t: o_t,
                        t_min,
                        t_max,
                        h,
                        q,
                    } && o_t_old == t_old && o_t == s.t && t_min == spec_min(t_old, s.t) && t_max
                        == spec_max(t_old, s.t) && h == p.h && q@ == p.q@),
                    None => true,
                }
            }
        },
    }
}

impl ODESolver {
    /// Hands out the interpolant over the last accepted step: none
    /// exists before a first step; a zero-length step or a
    /// zero-dimensional state yields the constant interpolant holding
    /// the unchanged `y`; otherwise the polynomial built from the
    /// host-computed coefficients.
    pub fn dense_output(&self, poly: Option<PolyCoefficients>) -> (r: Result<Output, ErrorKind>)
        requires
            (self.t_old is Some && !spec_degenerate_step(*self)) ==> poly is Some,
        ensures
            self.t_old is None <==> r == Err::<Output, ErrorKind>(ErrorKind::InvalidState),
            spec_dense_output_post(*self, poly, r),
    {
        match self.t_old {
            None => Err(ErrorKind::InvalidState),
            Some(t_old) => {
                let t_min = t_old.min_val(&self.t);
                let t_max = t_old.max_val(&self.t);
                if self.n == 0 || self.t.eq_val(&t_old) {
                    let value = copy_components(&self.y);
                    Ok(Output::Constant { t_old, t: self.t, t_min, t_max, value })
                } else {
                    match poly {
                        Some(p) => Ok(
                            Output::Polynomial {
                                t_old,
                                t: self.t,
                                t_min,
                                t_max,
                                h: p.h,
                                q: p.q,
                            },
                        ),
                        None => unreached(),
                    }
                }
            },
        }
    }
}

} // verus!
