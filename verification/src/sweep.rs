//! The cyclic sweep order, proved.
//!
//! The cyclic strategy promises a pivot sequence that is independent of the
//! matrix values: the pairs `i < j` in row-major order,
//! `(0,1), (0,2), ..., (n-2, n-1)`, wrapping back to `(0,1)` after the last
//! pair, so that every pair is visited once per sweep.  This module gives
//! that order a rank function and proves that the sequence of pivots the
//! cursor steps through is exactly the enumeration by rank, modulo the sweep
//! length.

use vstd::prelude::*;

use crate::choose_max::next_pair;
use vstd::arithmetic::div_mod::{
    lemma_fundamental_div_mod,
    lemma_fundamental_div_mod_converse,
    lemma_mod_bound,
    lemma_small_mod,
};

verus! {

/// `(i, j)` is a pair the sweep visits: two indices in order.
pub open spec fn valid_pair(n: int, i: int, j: int) -> bool {
    0 <= i < j < n
}

/// How many pairs lie in rows before row `i`: the rank of `(i, i + 1)`.
pub open spec fn row_start(n: int, i: int) -> int
    decreases i,
{
    if i <= 0 {
        0
    } else {
        row_start(n, i - 1) + (n - i)
    }
}

/// Position of the pair `(i, j)` in the row-major enumeration of all pairs.
pub open spec fn pair_rank(n: int, i: int, j: int) -> int {
    row_start(n, i) + j - i - 1
}

/// How many pairs one sweep visits.
pub open spec fn num_pairs(n: int) -> int {
    row_start(n, n - 1)
}

/// The pivot the cyclic cursor hands out on its `k`-th call (counting from
/// `0`) after starting fresh.
pub open spec fn sweep_pair(n: int, k: int) -> (int, int)
    decreases k,
{
    if k <= 0 {
        (0, 1)
    } else {
        let p = sweep_pair(n, k - 1);
        next_pair(p.0, p.1, n)
    }
}

/// The bridge to the cursor: each call of the cyclic strategy returns
/// `next_pair` of its state and leaves that pair as the new state, and the
/// state after the `k`-th call from fresh is `sweep_pair(n, k)`; so the
/// `k + 1`-st pivot follows the `k`-th by one `next_pair` step.
pub proof fn lemma_sweep_step(n: int, k: int)
    requires
        k >= 0,
    ensures
        sweep_pair(n, k + 1) == next_pair(sweep_pair(n, k).0, sweep_pair(n, k).1, n),
{
}

/// `row_start` grows with the row, strictly between distinct rows up to
/// `n - 1`.
proof fn lemma_row_start_mono(n: int, a: int, b: int)
    requires
        0 <= a <= b <= n - 1,
    ensures
        row_start(n, a) <= row_start(n, b),
        a < b ==> row_start(n, a) < row_start(n, b),
    decreases b - a,
{
    if a < b {
        lemma_row_start_mono(n, a, b - 1);
        assert(row_start(n, b) == row_start(n, b - 1) + (n - b));
    }
}

/// Every valid pair's rank lies inside one sweep.
proof fn lemma_rank_bounds(n: int, i: int, j: int)
    requires
        valid_pair(n, i, j),
    ensures
        0 <= pair_rank(n, i, j) < num_pairs(n),
{
    lemma_row_start_mono(n, 0, i);
    assert(row_start(n, i + 1) == row_start(n, i) + (n - i - 1));
    lemma_row_start_mono(n, i + 1, n - 1);
}

/// Pairs in an earlier row rank strictly lower.
proof fn lemma_rank_row_lt(n: int, i1: int, j1: int, i2: int, j2: int)
    requires
        valid_pair(n, i1, j1),
        valid_pair(n, i2, j2),
        i1 < i2,
    ensures
        pair_rank(n, i1, j1) < pair_rank(n, i2, j2),
{
    assert(row_start(n, i1 + 1) == row_start(n, i1) + (n - i1 - 1));
    lemma_row_start_mono(n, i1 + 1, i2);
}

/// The rank determines the pair.
proof fn lemma_rank_injective(n: int, i1: int, j1: int, i2: int, j2: int)
    requires
        valid_pair(n, i1, j1),
        valid_pair(n, i2, j2),
        pair_rank(n, i1, j1) == pair_rank(n, i2, j2),
    ensures
        i1 == i2 && j1 == j2,
{
    if i1 < i2 {
        lemma_rank_row_lt(n, i1, j1, i2, j2);
    }
    if i2 < i1 {
        lemma_rank_row_lt(n, i2, j2, i1, j1);
    }
}

/// A sweep over two or more rows visits at least one pair.
proof fn lemma_num_pairs_pos(n: int)
    requires
        n >= 2,
    ensures
        num_pairs(n) >= 1,
{
    assert(row_start(n, 0) == 0);
    assert(row_start(n, 1) == n - 1);
    lemma_row_start_mono(n, 1, n - 1);
}

/// Stepping the cursor moves the rank forward by one, wrapping to `0` after
/// the last pair of the sweep.
proof fn lemma_next_pair_rank(n: int, i: int, j: int)
    requires
        n >= 2,
        valid_pair(n, i, j),
    ensures
        valid_pair(n, next_pair(i, j, n).0, next_pair(i, j, n).1),
        pair_rank(n, i, j) + 1 == num_pairs(n) ==> pair_rank(
            n,
            next_pair(i, j, n).0,
            next_pair(i, j, n).1,
        ) == 0,
        pair_rank(n, i, j) + 1 < num_pairs(n) ==> pair_rank(
            n,
            next_pair(i, j, n).0,
            next_pair(i, j, n).1,
        ) == pair_rank(n, i, j) + 1,
{
    lemma_rank_bounds(n, i, j);
    if j + 1 < n {
        lemma_rank_bounds(n, i, j + 1);
    } else if i + 2 < n {
        assert(row_start(n, i + 1) == row_start(n, i) + (n - i - 1));
        lemma_rank_bounds(n, i + 1, i + 2);
    } else {
        assert(i == n - 2 && j == n - 1);
        assert(num_pairs(n) == row_start(n, n - 2) + 1);
        assert(pair_rank(n, 0, 1) == 0);
    }
}

/// The cyclic sweep order, as one statement: the `k`-th pivot the fresh
/// cursor hands out is a pair `i < j`, and its position in the row-major
/// enumeration of all such pairs is `k` modulo the sweep length.  In words:
/// the pivot sequence is `(0,1), (0,2), ..., (n-2, n-1)`, wrapping to
/// `(0,1)` after the last pair, whatever the matrix holds.
pub proof fn lemma_sweep_rank(n: int, k: int)
    requires
        n >= 2,
        k >= 0,
    ensures
        valid_pair(n, sweep_pair(n, k).0, sweep_pair(n, k).1),
        pair_rank(n, sweep_pair(n, k).0, sweep_pair(n, k).1) == k % num_pairs(n),
    decreases k,
{
    lemma_num_pairs_pos(n);
    let t = num_pairs(n);
    if k == 0 {
        assert(pair_rank(n, 0, 1) == 0);
        lemma_small_mod(0, t as nat);
    } else {
        lemma_sweep_rank(n, k - 1);
        let p = sweep_pair(n, k - 1);
        lemma_next_pair_rank(n, p.0, p.1);
        lemma_rank_bounds(n, p.0, p.1);
        let q = (k - 1) / t;
        let r = (k - 1) % t;
        lemma_fundamental_div_mod(k - 1, t);
        lemma_mod_bound(k - 1, t);
        assert((q + 1) * t == q * t + t) by (nonlinear_arith);
        assert(t * q == q * t) by (nonlinear_arith);
        if r == t - 1 {
            lemma_fundamental_div_mod_converse(k, t, q + 1, 0);
        } else {
            lemma_fundamental_div_mod_converse(k, t, q, r + 1);
        }
    }
}

/// Coverage: every pair `i < j` is visited, at the call whose index is the
/// pair's row-major rank — once per sweep.
pub proof fn lemma_sweep_covers(n: int, i: int, j: int)
    requires
        n >= 2,
        valid_pair(n, i, j),
    ensures
        sweep_pair(n, pair_rank(n, i, j)) == (i, j),
{
    let k = pair_rank(n, i, j);
    lemma_rank_bounds(n, i, j);
    lemma_sweep_rank(n, k);
    lemma_small_mod(k as nat, num_pairs(n) as nat);
    let p = sweep_pair(n, k);
    lemma_rank_injective(n, p.0, p.1, i, j);
}

/// Periodicity: after one full sweep the cursor repeats itself.
pub proof fn lemma_sweep_period(n: int, k: int)
    requires
        n >= 2,
        k >= 0,
    ensures
        sweep_pair(n, k + num_pairs(n)) == sweep_pair(n, k),
{
    lemma_num_pairs_pos(n);
    let t = num_pairs(n);
    lemma_sweep_rank(n, k);
    lemma_sweep_rank(n, k + t);
    let q = k / t;
    let r = k % t;
    lemma_fundamental_div_mod(k, t);
    lemma_mod_bound(k, t);
    assert((q + 1) * t == q * t + t) by (nonlinear_arith);
    assert(t * q == q * t) by (nonlinear_arith);
    lemma_fundamental_div_mod_converse(k + t, t, q + 1, r);
    let p = sweep_pair(n, k);
    let pp = sweep_pair(n, k + t);
    lemma_rank_injective(n, pp.0, pp.1, p.0, p.1);
}

} // verus!
