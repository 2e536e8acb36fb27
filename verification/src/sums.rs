//! Sums over the members of a sequence.

use vstd::prelude::*;

verus! {

/// 1 for true, 0 for false.
pub open spec fn one_if(b: bool) -> int {
    if b {
        1
    } else {
        0
    }
}

/// The sum of `f` over all members.
pub open spec fn total<A>(members: Seq<A>, f: spec_fn(A) -> int) -> int
    decreases members.len(),
{
    if members.len() == 0 {
        0
    } else {
        total(members.drop_last(), f) + f(members.last())
    }
}

/// Replacing one member changes a sum by the difference.
pub proof fn lemma_total_update<A>(members: Seq<A>, i: int, a: A, f: spec_fn(A) -> int)
    requires
        0 <= i < members.len(),
    ensures
        total(members.update(i, a), f) == total(members, f) - f(members[i]) + f(a),
    decreases members.len(),
{
    let changed = members.update(i, a);
    if i == members.len() - 1 {
        assert(changed.drop_last() =~= members.drop_last());
    } else {
        lemma_total_update(members.drop_last(), i, a, f);
        assert(changed.drop_last() =~= members.drop_last().update(i, a));
    }
}

/// A sum of numbers that are 0 or 1 is no less than any of them, and no more
/// than their number.
pub proof fn lemma_total_bounds<A>(members: Seq<A>, f: spec_fn(A) -> int)
    requires
        forall|a: A| 0 <= #[trigger] f(a) <= 1,
    ensures
        0 <= total(members, f) <= members.len(),
        forall|i: int| 0 <= i < members.len() ==> f(#[trigger] members[i]) <= total(members, f),
    decreases members.len(),
{
    if members.len() > 0 {
        lemma_total_bounds(members.drop_last(), f);
        assert forall|i: int| 0 <= i < members.len() implies f(#[trigger] members[i]) <= total(
            members,
            f,
        ) by {
            if i < members.len() - 1 {
                assert(members.drop_last()[i] == members[i]);
            }
        }
    }
}

/// If one of the numbers is 0, a sum of numbers that are 0 or 1 is less than
/// their number.
pub proof fn lemma_total_below<A>(members: Seq<A>, i: int, f: spec_fn(A) -> int)
    requires
        0 <= i < members.len(),
        forall|a: A| 0 <= #[trigger] f(a) <= 1,
        f(members[i]) == 0,
    ensures
        total(members, f) < members.len(),
    decreases members.len(),
{
    lemma_total_bounds(members.drop_last(), f);
    if i < members.len() - 1 {
        lemma_total_below(members.drop_last(), i, f);
    }
}

/// A sum of numbers that are 0 or 1 is no less than any two of them together.
pub proof fn lemma_total_pair<A>(members: Seq<A>, i: int, j: int, f: spec_fn(A) -> int)
    requires
        0 <= i < j < members.len(),
        forall|a: A| 0 <= #[trigger] f(a) <= 1,
    ensures
        f(members[i]) + f(members[j]) <= total(members, f),
    decreases members.len(),
{
    if j == members.len() - 1 {
        lemma_total_bounds(members.drop_last(), f);
        assert(members.drop_last()[i] == members[i]);
    } else {
        lemma_total_pair(members.drop_last(), i, j, f);
    }
}

/// A sum of zeroes is 0.
pub proof fn lemma_total_zero<A>(members: Seq<A>, f: spec_fn(A) -> int)
    requires
        forall|i: int| 0 <= i < members.len() ==> f(#[trigger] members[i]) == 0,
    ensures
        total(members, f) == 0,
    decreases members.len(),
{
    if members.len() > 0 {
        assert forall|i: int| 0 <= i < members.drop_last().len() implies f(
            #[trigger] members.drop_last()[i],
        ) == 0 by {
            assert(members.drop_last()[i] == members[i]);
        }
        lemma_total_zero(members.drop_last(), f);
    }
}

/// Two functions that agree on all members have the same sum.
pub proof fn lemma_total_same<A>(members: Seq<A>, f: spec_fn(A) -> int, g: spec_fn(A) -> int)
    requires
        forall|i: int| 0 <= i < members.len() ==> f(#[trigger] members[i]) == g(members[i]),
    ensures
        total(members, f) == total(members, g),
    decreases members.len(),
{
    if members.len() > 0 {
        assert forall|i: int| 0 <= i < members.drop_last().len() implies f(
            #[trigger] members.drop_last()[i],
        ) == g(members.drop_last()[i]) by {
            assert(members.drop_last()[i] == members[i]);
        }
        lemma_total_same(members.drop_last(), f, g);
    }
}

} // verus!
