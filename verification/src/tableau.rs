//! Butcher tableaux of explicit embedded Runge–Kutta pairs.
//!
//! A tableau carries the stage time fractions `C`, the strictly
//! lower-triangular stage coupling matrix `A`, the solution weights `B`,
//! the embedded error weights `E` (one entry per stage plus one for the
//! evaluation at the proposed new state), and the dense-output
//! coefficient matrix `P`.  The constructor checks the shape and
//! finiteness conditions that make a tableau usable; they are recorded
//! in `spec_tableau_valid`, which every later computation may rely on.

use vstd::prelude::*;

use crate::error::ErrorKind;
use crate::fp::Real;
use crate::fp::spec_is_finite;
use crate::fp::spec_is_zero;

verus! {

/// The constants of an explicit embedded Runge–Kutta pair.
#[derive(Debug)]
pub struct Tableau {
    /// Stage time fractions, one per stage.
    pub c: Vec<Real>,
    /// Stage coupling matrix, square and strictly lower-triangular.
    pub a: Vec<Vec<Real>>,
    /// Solution weights, one per stage.
    pub b: Vec<Real>,
    /// Error weights, one per stage and one extra for the evaluation at
    /// the proposed new state.
    pub e: Vec<Real>,
    /// Dense-output coefficients: one row per stage plus the extra
    /// evaluation, all rows of one length (the interpolation degree).
    pub p: Vec<Vec<Real>>,
    /// Order of the solution the weights `B` produce.
    pub order: u64,
    /// Order of the embedded error estimator.
    pub error_estimator_order: u64,
}

/// Every entry of a row is finite.
pub open spec fn spec_row_finite(row: Seq<Real>) -> bool {
    forall|i: int| 0 <= i < row.len() ==> spec_is_finite(#[trigger] row[i])
}

/// The shape and finiteness conditions of a usable tableau for
/// `n_stages` stages: `C`, `B` of length `n_stages`, `A` square of that
/// size and strictly lower-triangular, `E` one entry longer, and `P`
/// with one row per entry of `E`, all rows of equal length, everything
/// finite.
pub open spec fn spec_tableau_valid(t: Tableau) -> bool {
    let s = t.c@.len();
    &&& s > 0
    &&& t.a@.len() == s
    &&& t.b@.len() == s
    &&& t.e@.len() == s + 1
    &&& t.p@.len() == s + 1
    &&& t.p@.len() > 0 ==> t.p@[0].len() > 0
    &&& spec_row_finite(t.c@)
    &&& spec_row_finite(t.b@)
    &&& spec_row_finite(t.e@)
    &&& forall|i: int| 0 <= i < s ==> (#[trigger] t.a@[i])@.len() == s
    &&& forall|i: int| 0 <= i < s ==> spec_row_finite((#[trigger] t.a@[i])@)
    &&& forall|i: int, j: int|
        0 <= i < s && i <= j < s ==> spec_is_zero(#[trigger] t.a@[i]@[j])
    &&& forall|i: int| 0 <= i < s + 1 ==> (#[trigger] t.p@[i])@.len() == t.p@[0]@.len()
    &&& forall|i: int| 0 <= i < s + 1 ==> spec_row_finite((#[trigger] t.p@[i])@)
}

/// The number of stages of a tableau.
pub open spec fn spec_n_stages(t: Tableau) -> nat {
    t.c@.len()
}

fn row_finite(row: &Vec<Real>) -> (r: bool)
    ensures
        r == spec_row_finite(row@),
{
    let mut i: usize = 0;
    while i < row.len()
        invariant
            0 <= i <= row@.len(),
            forall|j: int| 0 <= j < i ==> spec_is_finite(#[trigger] row@[j]),
        decreases row@.len() - i,
    {
        if !row[i].is_finite() {
            return false;
        }
        i = i + 1;
    }
    true
}

impl Tableau {
    /// The number of stages.
    pub fn n_stages(&self) -> (r: usize)
        ensures
            r == spec_n_stages(*self),
    {
        self.c.len()
    }

    /// Builds a tableau after checking every shape and finiteness
    /// condition of `spec_tableau_valid`; rejects anything else as an
    /// invalid argument.
    pub fn new(
        c: Vec<Real>,
        a: Vec<Vec<Real>>,
        b: Vec<Real>,
        e: Vec<Real>,
        p: Vec<Vec<Real>>,
        order: u64,
        error_estimator_order: u64,
    ) -> (r: Result<Tableau, ErrorKind>)
        ensures
            r is Ok <==> spec_tableau_valid(
                (Tableau { c, a, b, e, p, order, error_estimator_order }),
            ),
            r matches Ok(t) ==> spec_tableau_valid(t) && t.c@ == c@ && t.a@ == a@ && t.b@ == b@
                && t.e@ == e@ && t.p@ == p@ && t.order == order && t.error_estimator_order
                == error_estimator_order,
            r matches Err(k) ==> k == ErrorKind::InvalidArgument,
    {
        let s = c.len();
        if s == 0 {
            return Err(ErrorKind::InvalidArgument);
        }
        if a.len() != s || b.len() != s || e.len() < 1 || e.len() - 1 != s || p.len() < 1
            || p.len() - 1 != s {
            return Err(ErrorKind::InvalidArgument);
        }
        if !row_finite(&c) || !row_finite(&b) || !row_finite(&e) {
            return Err(ErrorKind::InvalidArgument);
        }
        let mut i: usize = 0;
        while i < s
            invariant
                0 <= i <= s,
                s == a@.len(),
                forall|k: int| 0 <= k < i ==> (#[trigger] a@[k])@.len() == s,
                forall|k: int| 0 <= k < i ==> spec_row_finite((#[trigger] a@[k])@),
                forall|k: int, j: int|
                    0 <= k < i && k <= j < s ==> spec_is_zero(#[trigger] a@[k]@[j]),
            decreases s - i,
        {
            if a[i].len() != s {
                return Err(ErrorKind::InvalidArgument);
            }
            if !row_finite(&a[i]) {
                return Err(ErrorKind::InvalidArgument);
            }
            let mut j: usize = i;
            while j < s
                invariant
                    0 <= i <= j <= s,
                    s == a@.len(),
                    a@[i as int]@.len() == s,
                    forall|m: int| i <= m < j ==> spec_is_zero(#[trigger] a@[i as int]@[m]),
                decreases s - j,
            {
                if !a[i][j].is_zero() {
                    return Err(ErrorKind::InvalidArgument);
                }
                j = j + 1;
            }
            i = i + 1;
        }
        let width = p[0].len();
        if width == 0 {
            return Err(ErrorKind::InvalidArgument);
        }
        let mut i: usize = 0;
        while i < p.len()
            invariant
                0 <= i <= p@.len(),
                p@.len() > 0,
                width == p@[0]@.len(),
                forall|k: int| 0 <= k < i ==> (#[trigger] p@[k])@.len() == width,
                forall|k: int| 0 <= k < i ==> spec_row_finite((#[trigger] p@[k])@),
            decreases p@.len() - i,
        {
            if p[i].len() != width {
                return Err(ErrorKind::InvalidArgument);
            }
            if !row_finite(&p[i]) {
                return Err(ErrorKind::InvalidArgument);
            }
            i = i + 1;
        }
        Ok(Tableau { c, a, b, e, p, order, error_estimator_order })
    }
}

} // verus!
