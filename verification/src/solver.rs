//! The Jacobi iteration driver.
//!
//! One solve is a loop: check convergence, pick a pivot, rotate, refresh the
//! selector.  The rotation itself is numeric work the caller performs; every
//! decision around it is made here, verified, from order codes:
//! per-row off-diagonal sums for the convergence test, entry magnitudes for
//! the pivot choice, and the step counter against the safety cap.

use vstd::prelude::*;

use crate::SolverError;
use crate::choose_max::{ChooseMax, is_square, valid_pivot};

verus! {

/// Which pivot strategy a solve runs with.
#[derive(Clone, Copy, Debug, PartialEq, Eq, Structural)]
pub enum Method {
    /// Full scan for the largest off-diagonal magnitude.
    LargestOffDiagonal,
    /// Deterministic cursor over the pairs `i < j`, row-major, wrapping.
    CyclicSweep,
    /// Row with the largest cached off-diagonal weight, then the largest
    /// magnitude within it.
    RowNormWeighted,
}

/// Every per-row off-diagonal sum is strictly below the tolerance: the
/// termination criterion of the iteration.
pub open spec fn all_rows_small(sums: Seq<u64>, eps: u64) -> bool {
    forall|i: int| 0 <= i < sums.len() ==> #[trigger] sums[i] < eps
}

/// What the driver asks of the caller after looking at one iteration's data.
#[derive(Clone, Copy, Debug, PartialEq, Eq, Structural)]
pub enum StepOutcome {
    /// Apply a similarity rotation at this pivot (row, column), then come
    /// back.
    Rotate(usize, usize),
    /// Every row passed the tolerance test: the diagonal holds the
    /// eigenvalues.
    Converged,
    /// Give up: the cap is exhausted, or a value fell outside the order.
    Diverged,
}

/// The eigenvalues (as the caller's codes, in original row order) and the
/// number of rotations it took to reach them.
#[derive(Debug, PartialEq, Eq)]
pub struct JacobiResult {
    /// Diagonal of the final matrix, encoded by the caller.
    pub eigenvalues: Vec<u64>,
    /// Rotations performed.
    pub steps: u32,
}

/// The verified control state of one solve: the selector, the matrix size,
/// the encoded tolerance, the iteration cap, and the rotations so far.
pub struct JacobiSolver<C> {
    /// Pivot selection strategy, with its own state.
    pub sel: C,
    /// Number of rows of the working matrix.
    pub n: usize,
    /// Tolerance, encoded like the per-row sums it is compared against.
    pub eps: u64,
    /// Safety cap on the number of rotations.
    pub cap: u32,
    /// Rotations performed so far.
    pub steps: u32,
}

impl<C: ChooseMax> JacobiSolver<C> {
    /// The driver is in a usable state.
    pub open spec fn wf(&self) -> bool {
        &&& self.sel.inv(self.n as nat)
        &&& self.n >= 2
        &&& self.steps <= self.cap
    }

    /// Validate the input shape and set up the control state.  Fails fast,
    /// before any iteration: a matrix that is not square, or has fewer than
    /// two rows, is rejected as invalid input.
    pub fn new(sel: C, rows: usize, cols: usize, eps: u64, cap: u32) -> (r: Result<
        JacobiSolver<C>,
        SolverError,
    >)
        requires
            rows == cols && rows >= 2 ==> sel.inv(rows as nat),
        ensures
            (rows == cols && rows >= 2) <==> r is Ok,
            r matches Ok(s) ==> s.sel == sel && s.n == rows && s.eps == eps && s.cap == cap
                && s.steps == 0 && s.wf(),
            r is Err ==> r == Result::<JacobiSolver<C>, SolverError>::Err(
                SolverError::InvalidInput,
            ),
    {
        if rows != cols || rows < 2 {
            return Err(SolverError::InvalidInput);
        }
        Ok(JacobiSolver { sel, n: rows, eps, cap, steps: 0 })
    }

    /// Decide what happens next from one iteration's data.
    ///
    /// `row_sums` holds, per row, the code of the off-diagonal absolute sum;
    /// `mags` the codes of the entry magnitudes; `values_ordered` is the
    /// caller's word that every encoded value took a place in the order (a
    /// NaN, say, has none, and must end the solve as divergence rather than
    /// steer a comparison silently).
    ///
    /// In order: unordered data diverges; a matrix below tolerance in every
    /// row has converged; an exhausted cap diverges; otherwise the selector
    /// picks the pivot for one more rotation and the step count grows by one.
    pub fn step(&mut self, mags: &Vec<Vec<u64>>, row_sums: &Vec<u64>, values_ordered: bool) -> (o:
        StepOutcome)
        requires
            old(self).wf(),
            is_square(mags@, old(self).n as nat),
            row_sums@.len() == old(self).n,
        ensures
            final(self).wf(),
            final(self).n == old(self).n,
            final(self).eps == old(self).eps,
            final(self).cap == old(self).cap,
            !values_ordered ==> o == StepOutcome::Diverged && *final(self) == *old(self),
            values_ordered && all_rows_small(row_sums@, old(self).eps) ==> o
                == StepOutcome::Converged && *final(self) == *old(self),
            values_ordered && !all_rows_small(row_sums@, old(self).eps) && old(self).steps
                >= old(self).cap ==> o == StepOutcome::Diverged && *final(self) == *old(self),
            values_ordered && !all_rows_small(row_sums@, old(self).eps) && old(self).steps < old(
                self,
            ).cap ==> match o {
                StepOutcome::Rotate(pi, pj) => valid_pivot((pi, pj), old(self).n as nat) && old(
                    self,
                ).sel.chooses(final(self).sel, mags@, (pi, pj)) && final(self).steps == old(
                    self,
                ).steps + 1,
                _ => false,
            },
    {
        if !values_ordered {
            return StepOutcome::Diverged;
        }
        if rows_below(row_sums, self.eps) {
            return StepOutcome::Converged;
        }
        if self.steps >= self.cap {
            return StepOutcome::Diverged;
        }
        let p = self.sel.choose_pivot(mags);
        self.steps = self.steps + 1;
        StepOutcome::Rotate(p.0, p.1)
    }

    /// Hand the selector the effect of the rotation just applied at `pos`:
    /// `si` and `sj` are the freshly computed weight codes of the two rows
    /// it touched.
    pub fn update(&mut self, pos: (usize, usize), si: u64, sj: u64)
        requires
            old(self).wf(),
            valid_pivot(pos, old(self).n as nat),
        ensures
            final(self).wf(),
            final(self).n == old(self).n,
            final(self).eps == old(self).eps,
            final(self).cap == old(self).cap,
            final(self).steps == old(self).steps,
            old(self).sel.updates(final(self).sel, pos, si, sj),
    {
        let n = self.n;
        self.sel.update(n, pos, si, sj);
    }

    /// Package the diagonal the caller read off the converged matrix with
    /// the step count, in original row order.
    pub fn finish(&self, eigenvalues: Vec<u64>) -> (r: JacobiResult)
        requires
            eigenvalues@.len() == self.n,
        ensures
            r.eigenvalues@ == eigenvalues@,
            r.steps == self.steps,
    {
        JacobiResult { eigenvalues, steps: self.steps }
    }
}

/// Whether every row's off-diagonal sum code is strictly below the
/// tolerance code.
#[verifier::loop_isolation(false)]
fn rows_below(row_sums: &Vec<u64>, eps: u64) -> (b: bool)
    ensures
        b == all_rows_small(row_sums@, eps),
{
    let mut t: usize = 0;
    let mut ok = true;
    while t < row_sums.len()
        invariant
            t <= row_sums@.len(),
            ok == (forall|s: int| 0 <= s < t ==> #[trigger] row_sums@[s] < eps),
        decreases row_sums@.len() - t,
    {
        if row_sums[t] >= eps {
            ok = false;
        }
        t += 1;
    }
    ok
}

} // verus!
