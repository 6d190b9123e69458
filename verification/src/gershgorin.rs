//! Gershgorin circles: one real interval per matrix row, centred on the
//! diagonal entry with the row's off-diagonal absolute sum as radius.  Every
//! eigenvalue of the matrix lies in the union of the intervals, which makes
//! them an independent oracle for checking a solver's output.
//!
//! The interval endpoints are numeric work the caller performs; they enter
//! here as order codes, and the containment test on them is verified.

use vstd::prelude::*;

verus! {

/// One row's eigenvalue-containment interval, as endpoint codes.
#[derive(Clone, Copy, Debug, PartialEq, Eq, Structural)]
pub struct Circle {
    /// Code of `center - radius`.
    pub left: u64,
    /// Code of `center + radius`.
    pub right: u64,
}

/// `x` lies inside the interval `c`.
pub open spec fn covers(c: Circle, x: u64) -> bool {
    c.left <= x && x <= c.right
}

/// `x` lies inside at least one of the intervals.
pub open spec fn in_union(cs: Seq<Circle>, x: u64) -> bool {
    exists|k: int| 0 <= k < cs.len() && covers(#[trigger] cs[k], x)
}

/// The Gershgorin intervals of a matrix, one per row, in row order.
pub struct Circles(pub Vec<Circle>);

impl Circles {
    /// Build the intervals from per-row endpoint codes, in row order: each
    /// pair is (code of `center - radius`, code of `center + radius`).
    pub fn new(bounds: Vec<(u64, u64)>) -> (c: Circles)
        ensures
            c.0@.len() == bounds@.len(),
            forall|k: int|
                0 <= k < bounds@.len() ==> (#[trigger] c.0@[k]).left == bounds@[k].0
                    && c.0@[k].right == bounds@[k].1,
    {
        let mut circles: Vec<Circle> = Vec::new();
        let mut k: usize = 0;
        while k < bounds.len()
            invariant
                k <= bounds@.len(),
                circles@.len() == k,
                forall|t: int|
                    0 <= t < k ==> (#[trigger] circles@[t]).left == bounds@[t].0
                        && circles@[t].right == bounds@[t].1,
            decreases bounds@.len() - k,
        {
            let b = bounds[k];
            circles.push(Circle { left: b.0, right: b.1 });
            k += 1;
        }
        Circles(circles)
    }

    /// Whether `x` lies in the union of the intervals.
    #[verifier::loop_isolation(false)]
    pub fn contains(&self, x: u64) -> (b: bool)
        ensures
            b == in_union(self.0@, x),
    {
        let mut k: usize = 0;
        let mut found = false;
        while k < self.0.len()
            invariant
                k <= self.0@.len(),
                found ==> in_union(self.0@, x),
                !found ==> forall|t: int| 0 <= t < k ==> !covers(#[trigger] self.0@[t], x),
            decreases self.0@.len() - k,
        {
            let c = self.0[k];
            if c.left <= x && x <= c.right {
                found = true;
            }
            k += 1;
        }
        found
    }

    /// Whether every one of the given codes lies in the union of the
    /// intervals: the oracle check that a computed spectrum is contained in
    /// the circles of the matrix it came from.
    #[verifier::loop_isolation(false)]
    pub fn contains_all(&self, xs: &Vec<u64>) -> (b: bool)
        ensures
            b == (forall|i: int| 0 <= i < xs@.len() ==> in_union(self.0@, #[trigger] xs@[i])),
    {
        let mut i: usize = 0;
        let mut all = true;
        while i < xs.len()
            invariant
                i <= xs@.len(),
                all == (forall|t: int| 0 <= t < i ==> in_union(self.0@, #[trigger] xs@[t])),
            decreases xs@.len() - i,
        {
            if !self.contains(xs[i]) {
                all = false;
            }
            i += 1;
        }
        all
    }
}

} // verus!
