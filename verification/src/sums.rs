//! Sums of sequences of amounts, and the lemmas the bookkeeping needs.

use vstd::prelude::*;

verus! {

/// Sum of the first `n` entries of `s`, as a mathematical integer.
pub open spec fn sum_prefix(s: Seq<u64>, n: int) -> int
    decreases n,
{
    if n <= 0 {
        0
    } else {
        sum_prefix(s, n - 1) + s[n - 1]
    }
}

/// Sum of all entries of `s`.
pub open spec fn sum(s: Seq<u64>) -> int {
    sum_prefix(s, s.len() as int)
}

/// A sum of unsigned amounts is never negative.
pub proof fn lemma_sum_prefix_nonneg(s: Seq<u64>, n: int)
    requires
        n <= s.len(),
    ensures
        0 <= sum_prefix(s, n),
    decreases n,
{
    if n > 0 {
        lemma_sum_prefix_nonneg(s, n - 1);
    }
}

/// Sums over a prefix only grow as the prefix grows.
pub proof fn lemma_sum_prefix_monotonic(s: Seq<u64>, m: int, n: int)
    requires
        m <= n <= s.len(),
    ensures
        sum_prefix(s, m) <= sum_prefix(s, n),
    decreases n - m,
{
    if m < n {
        lemma_sum_prefix_monotonic(s, m, n - 1);
    }
}

/// Every entry is bounded by the sum of the whole sequence.
pub proof fn lemma_elem_le_sum(s: Seq<u64>, k: int)
    requires
        0 <= k < s.len(),
    ensures
        s[k] <= sum(s),
{
    lemma_sum_prefix_nonneg(s, k);
    lemma_sum_prefix_monotonic(s, k + 1, s.len() as int);
}

/// A prefix sum reads only the entries below `n`.
pub proof fn lemma_sum_prefix_ext(s: Seq<u64>, t: Seq<u64>, n: int)
    requires
        n <= s.len(),
        n <= t.len(),
        forall|i: int| 0 <= i < n ==> s[i] == t[i],
    ensures
        sum_prefix(s, n) == sum_prefix(t, n),
    decreases n,
{
    if n > 0 {
        lemma_sum_prefix_ext(s, t, n - 1);
    }
}

/// Updating one entry shifts the sum by the difference at that entry.
pub proof fn lemma_sum_prefix_update(s: Seq<u64>, k: int, v: u64, n: int)
    requires
        0 <= k < s.len(),
        n <= s.len(),
    ensures
        sum_prefix(s.update(k, v), n) == sum_prefix(s, n) + (if k < n {
            v - s[k]
        } else {
            0
        }),
    decreases n,
{
    if n > 0 {
        lemma_sum_prefix_update(s, k, v, n - 1);
    }
}

/// Updating one entry shifts the whole sum by the difference at that entry.
pub proof fn lemma_sum_update(s: Seq<u64>, k: int, v: u64)
    requires
        0 <= k < s.len(),
    ensures
        sum(s.update(k, v)) == sum(s) + v - s[k],
{
    lemma_sum_prefix_update(s, k, v, s.len() as int);
}

/// Appending an entry adds it to the sum.
pub proof fn lemma_sum_push(s: Seq<u64>, v: u64)
    ensures
        sum(s.push(v)) == sum(s) + v,
{
    lemma_sum_prefix_ext(s.push(v), s, s.len() as int);
}

/// A sequence of zeroes sums to zero.
pub proof fn lemma_sum_zeroes(s: Seq<u64>)
    requires
        forall|i: int| 0 <= i < s.len() ==> s[i] == 0,
    ensures
        sum(s) == 0,
{
    lemma_sum_prefix_zeroes(s, s.len() as int);
}

proof fn lemma_sum_prefix_zeroes(s: Seq<u64>, n: int)
    requires
        n <= s.len(),
        forall|i: int| 0 <= i < n ==> s[i] == 0,
    ensures
        sum_prefix(s, n) == 0,
    decreases n,
{
    if n > 0 {
        lemma_sum_prefix_zeroes(s, n - 1);
    }
}

/// A vector of `n` zero amounts, as fresh bookkeeping rows start.
pub fn zero_amounts(n: usize) -> (r: Vec<u64>)
    ensures
        r@.len() == n,
        forall|i: int| 0 <= i < n ==> r@[i] == 0,
        sum(r@) == 0,
{
    let mut r: Vec<u64> = Vec::new();
    let mut i: usize = 0;
    while i < n
        invariant
            i <= n,
            r@.len() == i,
            forall|j: int| 0 <= j < i ==> r@[j] == 0,
        decreases n - i,
    {
        r.push(0);
        i = i + 1;
    }
    proof {
        lemma_sum_zeroes(r@);
    }
    r
}

/// An element-for-element copy of a vector of amounts.
pub fn copy_amounts(v: &Vec<u64>) -> (r: Vec<u64>)
    ensures
        r@ == v@,
{
    let mut r: Vec<u64> = Vec::new();
    let mut i: usize = 0;
    while i < v.len()
        invariant
            i <= v@.len(),
            r@ == v@.subrange(0, i as int),
        decreases v@.len() - i,
    {
        r.push(v[i]);
        proof {
            assert(r@ =~= v@.subrange(0, i + 1 as int));
        }
        i = i + 1;
    }
    proof {
        assert(r@ =~= v@);
    }
    r
}

} // verus!
