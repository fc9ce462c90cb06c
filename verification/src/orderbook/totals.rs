//! Adding up the counts that the levels of the registry report.

use vstd::prelude::*;

verus! {

/// The sum of the counts.
pub open spec fn sum(counts: Seq<usize>) -> nat
    decreases counts.len(),
{
    if counts.len() == 0 {
        0
    } else {
        sum(counts.drop_last()) + counts.last() as nat
    }
}

/// `n` where it fits a `usize`, the largest `usize` where it does not.
pub open spec fn capped(n: nat) -> usize {
    if n <= usize::MAX {
        n as usize
    } else {
        usize::MAX
    }
}

/// Whether a count says that there is nothing: whether it is zero.
pub fn nothing_counted(count: usize) -> (nothing: bool)
    ensures
        nothing == (count == 0),
{
    count == 0
}

/// Adds up the counts; a sum too large for a `usize` gives `usize::MAX`.
pub fn total(counts: &Vec<usize>) -> (all: usize)
    ensures
        all == capped(sum(counts@)),
{
    let mut all: usize = 0;
    let mut done: usize = 0;
    while done < counts.len()
        invariant
            done <= counts.len(),
            all == capped(sum(counts@.take(done as int))),
        decreases counts.len() - done,
    {
        assert(counts@.take(done + 1).drop_last() == counts@.take(done as int));
        all = all.saturating_add(counts[done]);
        done = done + 1;
    }
    assert(counts@.take(done as int) == counts@);
    all
}

/// A sum is zero exactly when every count is zero.
pub proof fn sum_is_zero_iff_each_is(counts: Seq<usize>)
    ensures
        sum(counts) == 0 <==> forall|i: int| 0 <= i < counts.len() ==> counts[i] == 0,
    decreases counts.len(),
{
    if counts.len() > 0 {
        sum_is_zero_iff_each_is(counts.drop_last());
        if sum(counts) == 0 {
            assert forall|i: int| 0 <= i < counts.len() implies counts[i] == 0 by {
                if i < counts.len() - 1 {
                    assert(counts.drop_last()[i] == 0);
                }
            }
        }
        if forall|i: int| 0 <= i < counts.len() ==> counts[i] == 0 {
            assert forall|i: int| 0 <= i < counts.drop_last().len() implies counts.drop_last()[i] == 0 by {
                assert(counts[i] == 0);
            }
            assert(counts.last() == 0);
        }
    }
}

/// The sum of all the counts in the groups.
pub open spec fn sum_of_groups(groups: Seq<Seq<usize>>) -> nat
    decreases groups.len(),
{
    if groups.len() == 0 {
        0
    } else {
        sum_of_groups(groups.drop_last()) + sum(groups.last())
    }
}

/// The sum of all the counts in the groups of groups.
pub open spec fn sum_of_trees(trees: Seq<Seq<Seq<usize>>>) -> nat
    decreases trees.len(),
{
    if trees.len() == 0 {
        0
    } else {
        sum_of_trees(trees.drop_last()) + sum_of_groups(trees.last())
    }
}

/// What `total` gives for each group, in the groups' order.
pub open spec fn totals(groups: Seq<Seq<usize>>) -> Seq<usize> {
    Seq::new(groups.len(), |i: int| capped(sum(groups[i])))
}

/// What `total` gives for the totals of each group of groups, in their
/// order.
pub open spec fn totals_of_totals(trees: Seq<Seq<Seq<usize>>>) -> Seq<usize> {
    Seq::new(trees.len(), |i: int| capped(sum(totals(trees[i]))))
}

/// Two sums that agree once capped still agree, once capped, after counts
/// that agree once capped are added to them.
proof fn capped_sums_agree(left: nat, same_left: nat, right: nat, same_right: nat)
    requires
        capped(left) == capped(same_left),
        capped(right) == capped(same_right),
    ensures
        capped(left + right) == capped(same_left + same_right),
{
}

/// The total of the totals of groups is the total of all their counts:
/// adding up level by level loses nothing, and a sum too large for a `usize`
/// is `usize::MAX` either way.
pub proof fn total_of_totals(groups: Seq<Seq<usize>>)
    ensures
        capped(sum(totals(groups))) == capped(sum_of_groups(groups)),
    decreases groups.len(),
{
    if groups.len() > 0 {
        total_of_totals(groups.drop_last());
        assert(totals(groups).drop_last() =~= totals(groups.drop_last()));
        capped_sums_agree(
            sum(totals(groups.drop_last())),
            sum_of_groups(groups.drop_last()),
            totals(groups).last() as nat,
            sum(groups.last()),
        );
    }
}

/// With every level adding up what the level below it reports, the root's
/// total is the sum of the counts of every leaf: `trees` holds, for each
/// underlying, for each of its expirations, the order count of each of its
/// strikes, and a sum too large for a `usize` is `usize::MAX`.
pub proof fn root_total_counts_every_leaf(trees: Seq<Seq<Seq<usize>>>)
    ensures
        capped(sum(totals_of_totals(trees))) == capped(sum_of_trees(trees)),
    decreases trees.len(),
{
    if trees.len() > 0 {
        root_total_counts_every_leaf(trees.drop_last());
        total_of_totals(trees.last());
        assert(totals_of_totals(trees).drop_last() =~= totals_of_totals(trees.drop_last()));
        capped_sums_agree(
            sum(totals_of_totals(trees.drop_last())),
            sum_of_trees(trees.drop_last()),
            totals_of_totals(trees).last() as nat,
            sum_of_groups(trees.last()),
        );
    }
}

} // verus!
