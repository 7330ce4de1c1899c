//! Sums, extrema and counts over integer sequences.
//!
//! The averages and the course statistics are specified with these
//! functions; the lemmas unfold them one prefix step at a time, which
//! is the shape the loop invariants need.

use vstd::prelude::*;

verus! {

/// The sum of the entries.
pub open spec fn sum_ints(s: Seq<int>) -> int
    decreases s.len(),
{
    if s.len() == 0 {
        0
    } else {
        sum_ints(s.drop_last()) + s.last()
    }
}

/// The largest entry; 0 for an empty sequence.
pub open spec fn max_int(s: Seq<int>) -> int
    decreases s.len(),
{
    if s.len() == 0 {
        0
    } else if s.len() == 1 {
        s[0]
    } else if s.last() > max_int(s.drop_last()) {
        s.last()
    } else {
        max_int(s.drop_last())
    }
}

/// The smallest entry; 0 for an empty sequence.
pub open spec fn min_int(s: Seq<int>) -> int
    decreases s.len(),
{
    if s.len() == 0 {
        0
    } else if s.len() == 1 {
        s[0]
    } else if s.last() < min_int(s.drop_last()) {
        s.last()
    } else {
        min_int(s.drop_last())
    }
}

/// How many entries satisfy `p`.
pub open spec fn count_matching(s: Seq<int>, p: spec_fn(int) -> bool) -> nat
    decreases s.len(),
{
    if s.len() == 0 {
        0
    } else {
        count_matching(s.drop_last(), p) + if p(s.last()) {
            1nat
        } else {
            0nat
        }
    }
}

/// Extending a prefix by one entry adds that entry to its sum.
pub proof fn lemma_sum_take_step(s: Seq<int>, i: int)
    requires
        0 <= i < s.len(),
    ensures
        sum_ints(s.take(i + 1)) == sum_ints(s.take(i)) + s[i],
{
    assert(s.take(i + 1).drop_last() =~= s.take(i));
    assert(s.take(i + 1).last() == s[i]);
}

/// Extending a prefix by one entry takes the maximum of the old
/// maximum and that entry.
pub proof fn lemma_max_take_step(s: Seq<int>, i: int)
    requires
        0 < i < s.len(),
    ensures
        max_int(s.take(i + 1)) == if s[i] > max_int(s.take(i)) {
            s[i]
        } else {
            max_int(s.take(i))
        },
{
    assert(s.take(i + 1).drop_last() =~= s.take(i));
    assert(s.take(i + 1).last() == s[i]);
}

/// Extending a prefix by one entry takes the minimum of the old
/// minimum and that entry.
pub proof fn lemma_min_take_step(s: Seq<int>, i: int)
    requires
        0 < i < s.len(),
    ensures
        min_int(s.take(i + 1)) == if s[i] < min_int(s.take(i)) {
            s[i]
        } else {
            min_int(s.take(i))
        },
{
    assert(s.take(i + 1).drop_last() =~= s.take(i));
    assert(s.take(i + 1).last() == s[i]);
}

/// Extending a prefix by one entry raises the count exactly when the
/// entry satisfies `p`.
pub proof fn lemma_count_take_step(s: Seq<int>, i: int, p: spec_fn(int) -> bool)
    requires
        0 <= i < s.len(),
    ensures
        count_matching(s.take(i + 1), p) == count_matching(s.take(i), p) + if p(s[i]) {
            1nat
        } else {
            0nat
        },
{
    assert(s.take(i + 1).drop_last() =~= s.take(i));
    assert(s.take(i + 1).last() == s[i]);
}

} // verus!
