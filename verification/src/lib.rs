//! Verified decision core of a Jacobi eigenvalue solver for real symmetric
//! matrices.
//!
//! The solver repeatedly picks an off-diagonal pivot, rotates it away, and
//! stops when every row's off-diagonal mass is below a tolerance.  All of the
//! decisions in that loop — which pivot to take, whether the iteration has
//! converged, whether the safety cap is exhausted — depend on the matrix
//! entries only through their order.  This crate verifies exactly those
//! decisions.  A caller encodes each real quantity it compares as a `u64`
//! *order code* (any embedding of its scalar type into `u64` that preserves
//! `<`), hands the codes in, and keeps the numeric kernels — the rotation
//! angle and the similarity transform — on its own side.

use vstd::prelude::*;

pub mod choose_max;
pub mod gershgorin;
pub mod solver;
pub mod sweep;

pub use choose_max::{ChooseMax, CyclicChoice, MaxModule, OptimalElement};
pub use gershgorin::{Circle, Circles};
pub use solver::{JacobiResult, JacobiSolver, Method, StepOutcome};

verus! {

/// Why a solve cannot proceed or did not finish.
#[derive(Clone, Copy, Debug, PartialEq, Eq, Structural)]
pub enum SolverError {
    /// The matrix is not square, or has fewer than two rows.
    InvalidInput,
    /// The iteration cap ran out before the tolerance was met, or a value
    /// with no place in the order (such as a NaN) turned up.
    NumericDivergence,
}

} // verus!
