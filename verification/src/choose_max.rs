//! Pivot selection strategies for the Jacobi iteration.
//!
//! A selector sees the working matrix only through *magnitude codes*: the
//! caller encodes `|a_ij|` for every entry as a `u64` so that the encoding
//! preserves `<` on the underlying scalars.  Everything a strategy decides —
//! which pivot comes next — is a pure function of those codes and of the
//! strategy's own state, and is verified here.

use vstd::prelude::*;

verus! {

/// `m` is an `n` by `n` matrix of codes.
pub open spec fn is_square(m: Seq<Vec<u64>>, n: nat) -> bool {
    m.len() == n && forall|i: int| 0 <= i < n ==> (#[trigger] m[i])@.len() == n
}

/// The code at row `i`, column `j`.
pub open spec fn entry(m: Seq<Vec<u64>>, i: int, j: int) -> u64 {
    m[i]@[j]
}

/// A usable pivot position: two distinct row/column indices inside the matrix.
pub open spec fn valid_pivot(p: (usize, usize), n: nat) -> bool {
    p.0 < n && p.1 < n && p.0 != p.1
}

/// Row-major order on positions.
pub open spec fn row_major_before(a: (int, int), b: (int, int)) -> bool {
    a.0 < b.0 || (a.0 == b.0 && a.1 < b.1)
}

/// `p` is an off-diagonal position whose code is maximal, and no off-diagonal
/// position earlier in row-major order carries an equal code: the *first*
/// largest off-diagonal entry.
pub open spec fn is_first_max_pivot(m: Seq<Vec<u64>>, p: (usize, usize)) -> bool {
    let n = m.len() as int;
    &&& valid_pivot(p, n as nat)
    &&& forall|a: int, b: int|
        0 <= a < n && 0 <= b < n && a != b ==>
            #[trigger] entry(m, a, b) <= entry(m, p.0 as int, p.1 as int)
    &&& forall|a: int, b: int|
        0 <= a < n && 0 <= b < n && a != b
            && row_major_before((a, b), (p.0 as int, p.1 as int)) ==>
            #[trigger] entry(m, a, b) < entry(m, p.0 as int, p.1 as int)
}

/// `p` is the pivot the row-norm-weighted strategy owes: its row carries the
/// largest cached row weight (the last such row when several are equal), and
/// within that row its column carries the largest magnitude among the
/// off-diagonal entries (again the last one on equality).
pub open spec fn is_weighted_pivot(sums: Seq<u64>, m: Seq<Vec<u64>>, p: (usize, usize)) -> bool {
    let n = m.len() as int;
    &&& valid_pivot(p, n as nat)
    &&& forall|k: int| 0 <= k < n ==> #[trigger] sums[k] <= sums[p.0 as int]
    &&& forall|k: int| p.0 < k < n ==> #[trigger] sums[k] < sums[p.0 as int]
    &&& forall|k: int|
        0 <= k < n && k != p.0 ==>
            #[trigger] entry(m, p.0 as int, k) <= entry(m, p.0 as int, p.1 as int)
    &&& forall|k: int|
        p.1 < k < n && k != p.0 ==>
            #[trigger] entry(m, p.0 as int, k) < entry(m, p.0 as int, p.1 as int)
}

/// A pivot selection strategy.
///
/// `choose_pivot` picks the next pivot from the magnitude codes; `update` is
/// the hook the solver calls after a rotation so that a strategy with cached
/// state can refresh the two rows the rotation touched.
pub trait ChooseMax: Sized {
    /// The strategy is ready for matrices with `n` rows.
    spec fn inv(&self, n: nat) -> bool;

    /// What one selection promises, relating the state before (`self`) and
    /// after (`next`) to the matrix and the returned pivot.
    spec fn chooses(&self, next: Self, m: Seq<Vec<u64>>, p: (usize, usize)) -> bool;

    /// What one refresh promises, given the new row weights `si` and `sj`
    /// for the two rows of `pos`.
    spec fn updates(&self, next: Self, pos: (usize, usize), si: u64, sj: u64) -> bool;

    /// Pick the pivot for the next rotation.
    fn choose_pivot(&mut self, mags: &Vec<Vec<u64>>) -> (p: (usize, usize))
        requires
            old(self).inv(mags@.len()),
            is_square(mags@, mags@.len()),
            mags@.len() >= 2,
        ensures
            final(self).inv(mags@.len()),
            valid_pivot(p, mags@.len()),
            old(self).chooses(*final(self), mags@, p),
    ;

    /// Absorb the effect of the last rotation at `pos` on a matrix with `n`
    /// rows; `si` and `sj` are the freshly computed weights of rows `pos.0`
    /// and `pos.1`.
    fn update(&mut self, n: usize, pos: (usize, usize), si: u64, sj: u64)
        requires
            old(self).inv(n as nat),
            valid_pivot(pos, n as nat),
        ensures
            final(self).inv(n as nat),
            old(self).updates(*final(self), pos, si, sj),
    ;
}

/// Full-scan strategy: take the largest off-diagonal magnitude, the first
/// one in row-major order on a tie.
#[derive(Clone, Copy, Debug, PartialEq, Eq, Structural)]
pub struct MaxModule;

impl ChooseMax for MaxModule {
    open spec fn inv(&self, n: nat) -> bool {
        true
    }

    open spec fn chooses(&self, next: Self, m: Seq<Vec<u64>>, p: (usize, usize)) -> bool {
        is_first_max_pivot(m, p) && next == *self
    }

    open spec fn updates(&self, next: Self, pos: (usize, usize), si: u64, sj: u64) -> bool {
        next == *self
    }

    #[verifier::loop_isolation(false)]
    fn choose_pivot(&mut self, mags: &Vec<Vec<u64>>) -> (p: (usize, usize)) {
        let n = mags.len();
        let mut bi: usize = 0;
        let mut bj: usize = 1;
        let mut i: usize = 0;
        while i < n
            invariant
                i <= n,
                bi < n,
                bj < n,
                bi != bj,
                forall|a: int, b: int|
                    0 <= a < i && 0 <= b < n && a != b ==>
                        #[trigger] entry(mags@, a, b) <= entry(mags@, bi as int, bj as int),
                forall|a: int, b: int|
                    0 <= a < n && 0 <= b < n && a != b
                        && row_major_before((a, b), (bi as int, bj as int)) ==>
                        #[trigger] entry(mags@, a, b) < entry(mags@, bi as int, bj as int),
            decreases n - i,
        {
            let mut j: usize = 0;
            while j < n
                invariant
                    i < n,
                    j <= n,
                    bi < n,
                    bj < n,
                    bi != bj,
                    forall|a: int, b: int|
                        0 <= a < i && 0 <= b < n && a != b ==>
                            #[trigger] entry(mags@, a, b) <= entry(mags@, bi as int, bj as int),
                    forall|b: int|
                        0 <= b < j && b != i ==>
                            #[trigger] entry(mags@, i as int, b)
                                <= entry(mags@, bi as int, bj as int),
                    forall|a: int, b: int|
                        0 <= a < n && 0 <= b < n && a != b
                            && row_major_before((a, b), (bi as int, bj as int)) ==>
                            #[trigger] entry(mags@, a, b) < entry(mags@, bi as int, bj as int),
                decreases n - j,
            {
                if i != j && mags[i][j] > mags[bi][bj] {
                    bi = i;
                    bj = j;
                }
                j += 1;
            }
            i += 1;
        }
        (bi, bj)
    }

    fn update(&mut self, _n: usize, _pos: (usize, usize), _si: u64, _sj: u64) {
    }
}

/// The largest-off-diagonal contract pins the pivot: two positions that both
/// satisfy it are the same position.  The choice is deterministic — however
/// the scan is carried out, only one answer meets the contract.
pub proof fn lemma_first_max_pivot_unique(m: Seq<Vec<u64>>, p: (usize, usize), q: (usize, usize))
    requires
        is_first_max_pivot(m, p),
        is_first_max_pivot(m, q),
    ensures
        p == q,
{
    let pi = (p.0 as int, p.1 as int);
    let qi = (q.0 as int, q.1 as int);
    if p != q {
        if row_major_before(pi, qi) {
            assert(entry(m, pi.0, pi.1) < entry(m, qi.0, qi.1));
            assert(entry(m, qi.0, qi.1) <= entry(m, pi.0, pi.1));
        } else {
            assert(row_major_before(qi, pi));
            assert(entry(m, qi.0, qi.1) < entry(m, pi.0, pi.1));
            assert(entry(m, pi.0, pi.1) <= entry(m, qi.0, qi.1));
        }
    }
}

/// The row-norm-weighted contract pins the pivot in the same way.
pub proof fn lemma_weighted_pivot_unique(
    sums: Seq<u64>,
    m: Seq<Vec<u64>>,
    p: (usize, usize),
    q: (usize, usize),
)
    requires
        is_weighted_pivot(sums, m, p),
        is_weighted_pivot(sums, m, q),
    ensures
        p == q,
{
    if p.0 < q.0 {
        assert(sums[q.0 as int] < sums[p.0 as int]);
        assert(sums[p.0 as int] <= sums[q.0 as int]);
    }
    if q.0 < p.0 {
        assert(sums[p.0 as int] < sums[q.0 as int]);
        assert(sums[q.0 as int] <= sums[p.0 as int]);
    }
    let r = p.0 as int;
    if p.1 < q.1 {
        assert(entry(m, r, q.1 as int) < entry(m, r, p.1 as int));
        assert(entry(m, r, p.1 as int) <= entry(m, r, q.1 as int));
    }
    if q.1 < p.1 {
        assert(entry(m, r, p.1 as int) < entry(m, r, q.1 as int));
        assert(entry(m, r, q.1 as int) <= entry(m, r, p.1 as int));
    }
}

/// The position following `(i, j)` in the cyclic sweep over index pairs
/// `i < j`, in row-major order, wrapping to `(0, 1)` after the last pair.
/// The fresh-cursor state `(0, 0)` steps to the first pair `(0, 1)`.
pub open spec fn next_pair(i: int, j: int, n: int) -> (int, int) {
    if i == 0 && j == 0 {
        (0, 1)
    } else if j + 1 < n {
        (i, j + 1)
    } else if i + 2 < n {
        (i + 1, i + 2)
    } else {
        (0, 1)
    }
}

/// Cyclic sweep strategy: a deterministic cursor over the pairs `i < j`,
/// independent of the matrix values.
#[derive(Clone, Copy, Debug, PartialEq, Eq, Structural)]
pub struct CyclicChoice {
    /// Row of the last pivot handed out; `0` with `j == 0` before the first.
    pub i: usize,
    /// Column of the last pivot handed out.
    pub j: usize,
    /// Number of matrix rows the sweep runs over.
    pub n: usize,
}

impl CyclicChoice {
    /// A fresh cursor for an `n` by `n` matrix; the first pivot it hands out
    /// is `(0, 1)`.
    pub fn new(n: usize) -> (s: Self)
        requires
            n >= 2,
        ensures
            s.i == 0,
            s.j == 0,
            s.n == n,
            s.inv(n as nat),
    {
        CyclicChoice { i: 0, j: 0, n }
    }
}

impl ChooseMax for CyclicChoice {
    open spec fn inv(&self, n: nat) -> bool {
        &&& self.n == n
        &&& n >= 2
        &&& ((self.i == 0 && self.j == 0) || (self.i < self.j && self.j < self.n))
    }

    open spec fn chooses(&self, next: Self, m: Seq<Vec<u64>>, p: (usize, usize)) -> bool {
        &&& (p.0 as int, p.1 as int) == next_pair(self.i as int, self.j as int, self.n as int)
        &&& next.i == p.0
        &&& next.j == p.1
        &&& next.n == self.n
    }

    open spec fn updates(&self, next: Self, pos: (usize, usize), si: u64, sj: u64) -> bool {
        next == *self
    }

    fn choose_pivot(&mut self, _mags: &Vec<Vec<u64>>) -> (p: (usize, usize)) {
        let (ci, cj): (usize, usize) = if self.i == 0 && self.j == 0 {
            (0, 1)
        } else if self.j + 1 < self.n {
            (self.i, self.j + 1)
        } else if self.i + 2 < self.n {
            (self.i + 1, self.i + 2)
        } else {
            (0, 1)
        };
        self.i = ci;
        self.j = cj;
        (ci, cj)
    }

    fn update(&mut self, _n: usize, _pos: (usize, usize), _si: u64, _sj: u64) {
    }
}

/// Row-norm-weighted strategy: a cached weight per row (the caller computes
/// it as the row's off-diagonal sum of squares), refreshed incrementally for
/// the two rows a rotation touches.
#[derive(Debug)]
pub struct OptimalElement {
    /// Cached per-row weight codes.
    pub sums: Vec<u64>,
}

impl OptimalElement {
    /// A strategy seeded with the per-row weights of the initial matrix.
    pub fn new(sums: Vec<u64>) -> (s: Self)
        ensures
            s.sums@ == sums@,
    {
        OptimalElement { sums }
    }
}

impl ChooseMax for OptimalElement {
    open spec fn inv(&self, n: nat) -> bool {
        self.sums@.len() == n
    }

    open spec fn chooses(&self, next: Self, m: Seq<Vec<u64>>, p: (usize, usize)) -> bool {
        &&& is_weighted_pivot(self.sums@, m, p)
        &&& next.sums@ == self.sums@
    }

    open spec fn updates(&self, next: Self, pos: (usize, usize), si: u64, sj: u64) -> bool {
        next.sums@ == self.sums@.update(pos.0 as int, si).update(pos.1 as int, sj)
    }

    #[verifier::loop_isolation(false)]
    fn choose_pivot(&mut self, mags: &Vec<Vec<u64>>) -> (p: (usize, usize)) {
        let n = mags.len();
        let mut r: usize = 0;
        let mut k: usize = 1;
        while k < n
            invariant
                r < k,
                k <= n,
                forall|t: int| 0 <= t < k ==> #[trigger] self.sums@[t] <= self.sums@[r as int],
                forall|t: int| r < t < k ==> #[trigger] self.sums@[t] < self.sums@[r as int],
            decreases n - k,
        {
            if self.sums[k] >= self.sums[r] {
                r = k;
            }
            k += 1;
        }
        let mut c: usize = if r == 0 {
            1
        } else {
            0
        };
        let mut j: usize = 0;
        while j < n
            invariant
                r < n,
                c < n,
                c != r,
                j <= n,
                forall|t: int|
                    0 <= t < j && t != r ==>
                        #[trigger] entry(mags@, r as int, t) <= entry(mags@, r as int, c as int),
                forall|t: int|
                    c < t < j && t != r ==>
                        #[trigger] entry(mags@, r as int, t) < entry(mags@, r as int, c as int),
            decreases n - j,
        {
            if j != r {
                if mags[r][j] >= mags[r][c] {
                    c = j;
                }
            }
            j += 1;
        }
        (r, c)
    }

    fn update(&mut self, _n: usize, pos: (usize, usize), si: u64, sj: u64) {
        self.sums.set(pos.0, si);
        self.sums.set(pos.1, sj);
    }
}

} // verus!
