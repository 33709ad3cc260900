//! The lookup: from a target lambda to a sample size.
//!
//! The answer is the sample size of the first entry whose lambda is not below
//! the target, so a target between two entries is rounded up to the larger
//! neighbour, and a target that equals the lambda of several entries gets the
//! first of them. A target above every entry gets the sentinel.

use crate::lambda::Lambda;
use crate::table::{
    entry_size, entry_value, lambda_at, lemma_table_invariant, size_at, table_invariant,
    TABLE_LEN,
};
use vstd::prelude::*;

verus! {

/// The first index at or after `from` whose lambda is at least `target`, or
/// the last index of the table if there is none.
pub open spec fn first_at_or_above(target: int, from: int) -> int
    decreases TABLE_LEN - from,
{
    if from >= TABLE_LEN - 1 || entry_value(from) >= target {
        from
    } else {
        first_at_or_above(target, from + 1)
    }
}

/// The index of the entry that answers a target of the given value.
pub open spec fn lookup_index(target: int) -> int {
    first_at_or_above(target, 0)
}

/// The sample size for a target lambda.
pub open spec fn sampling_size(target: Lambda) -> usize {
    entry_size(lookup_index(target@))
}

/// Whether entry `index` is the one that answers `target`: every entry
/// before it lies below the target, and it does not, unless it is the last.
pub open spec fn answers(index: int, target: int) -> bool {
    &&& 0 <= index < TABLE_LEN
    &&& forall|j: int| 0 <= j < index ==> #[trigger] entry_value(j) < target
    &&& (entry_value(index) >= target || index == TABLE_LEN - 1)
}

proof fn lemma_first_at_or_above(target: int, from: int)
    requires
        0 <= from < TABLE_LEN,
    ensures
        from <= first_at_or_above(target, from) < TABLE_LEN,
        forall|j: int|
            from <= j < first_at_or_above(target, from) ==> #[trigger] entry_value(j) < target,
        entry_value(first_at_or_above(target, from)) >= target || first_at_or_above(target, from)
            == TABLE_LEN - 1,
    decreases TABLE_LEN - from,
{
    if !(from >= TABLE_LEN - 1 || entry_value(from) >= target) {
        lemma_first_at_or_above(target, from + 1);
    }
}

/// Exactly one entry answers a target, and `lookup_index` names it.
pub proof fn lemma_lookup_index_answers(target: int)
    ensures
        answers(lookup_index(target), target),
        forall|i: int| answers(i, target) ==> i == lookup_index(target),
{
    lemma_first_at_or_above(target, 0);
    let k = lookup_index(target);
    assert forall|i: int| answers(i, target) implies i == k by {
        if i < k {
            assert(entry_value(i) < target);
        } else if k < i {
            assert(entry_value(k) < target);
        }
    }
}

/// Binary search for the entry that answers `target`.
fn search(target: &Lambda) -> (index: usize)
    ensures
        index == lookup_index(target@),
{
    proof {
        lemma_table_invariant();
    }
    let mut low: usize = 0;
    let mut high: usize = TABLE_LEN - 1;
    while low < high
        invariant
            low <= high < TABLE_LEN,
            table_invariant(),
            forall|j: int| 0 <= j < low ==> #[trigger] entry_value(j) < target@,
            entry_value(high as int) >= target@ || high == TABLE_LEN - 1,
        decreases high - low,
    {
        let middle = low + (high - low) / 2;
        if lambda_at(middle).lt(target) {
            assert forall|j: int| 0 <= j < middle + 1 implies #[trigger] entry_value(j)
                < target@ by {
                assert(entry_value(j) <= entry_value(middle as int));
            }
            low = middle + 1;
        } else {
            high = middle;
        }
    }
    proof {
        assert(answers(low as int, target@));
        lemma_lookup_index_answers(target@);
    }
    low
}

/// The number of points to sample in one segment when the expected number of
/// hits there is `target_lambda`, the wanted result count times the
/// probability that a point lies in the segment.
///
/// It is the sample size of the first table entry whose lambda is at least
/// the target, and the sentinel's where the target lies above them all. Every
/// lambda has an answer, so the result is never `None`.
pub fn find_search_sampling_over_point_distribution(target_lambda: Lambda) -> (size: Option<usize>)
    ensures
        size == Some(sampling_size(target_lambda)),
        answers(lookup_index(target_lambda@), target_lambda@),
        sampling_size(target_lambda) >= 1,
{
    let index = search(&target_lambda);
    proof {
        lemma_lookup_index_answers(target_lambda@);
        lemma_table_invariant();
    }
    Some(size_at(index))
}

/// The sample size is that of an entry of the table, and at least 1.
pub proof fn lemma_sampling_size_is_an_entry(target: Lambda)
    ensures
        0 <= lookup_index(target@) < TABLE_LEN,
        sampling_size(target) == entry_size(lookup_index(target@)),
        sampling_size(target) >= 1,
{
    lemma_table_invariant();
    lemma_lookup_index_answers(target@);
}

/// Two targets that denote the same number get the same sample size,
/// whatever their bit patterns: the answer depends on nothing else.
pub proof fn lemma_sampling_size_depends_on_value_alone(a: Lambda, b: Lambda)
    requires
        a@ == b@,
    ensures
        sampling_size(a) == sampling_size(b),
{
}

/// A larger target never gets a smaller sample size.
pub proof fn lemma_sampling_size_is_monotone(smaller: Lambda, larger: Lambda)
    requires
        smaller@ <= larger@,
    ensures
        sampling_size(smaller) <= sampling_size(larger),
{
    lemma_table_invariant();
    lemma_lookup_index_answers(smaller@);
    lemma_lookup_index_answers(larger@);
    let i = lookup_index(smaller@);
    let k = lookup_index(larger@);
    if k < i {
        assert(entry_value(k) < smaller@);
    }
}

/// A target above the last entry before the sentinel gets the largest size
/// that there is.
pub proof fn lemma_sampling_size_saturates(target: Lambda)
    requires
        target@ > entry_value(TABLE_LEN - 2),
    ensures
        sampling_size(target) == usize::MAX,
{
    lemma_table_invariant();
    lemma_lookup_index_answers(target@);
    assert forall|j: int| 0 <= j < TABLE_LEN - 1 implies #[trigger] entry_value(j) < target@ by {
        assert(entry_value(j) <= entry_value(TABLE_LEN - 2));
    }
    assert(answers(TABLE_LEN - 1, target@));
}

/// A target of zero, or below zero, gets the sample size of the first entry,
/// and no entry has a smaller one.
pub proof fn lemma_zero_gets_smallest_size(target: Lambda)
    requires
        target@ <= 0,
    ensures
        sampling_size(target) == entry_size(0),
        forall|i: int| 0 <= i < TABLE_LEN ==> entry_size(0) <= #[trigger] entry_size(i),
{
    lemma_table_invariant();
    lemma_lookup_index_answers(target@);
    assert(0 < entry_value(0));
    assert(answers(0, target@));
}

/// A target that equals the lambda of an entry gets that entry's sample
/// size, if the entry is the first with that lambda.
pub proof fn lemma_exact_match(target: Lambda, index: int)
    requires
        0 <= index < TABLE_LEN,
        target@ == entry_value(index),
        index == 0 || entry_value(index - 1) < entry_value(index),
    ensures
        sampling_size(target) == entry_size(index),
{
    lemma_table_invariant();
    lemma_lookup_index_answers(target@);
    assert forall|j: int| 0 <= j < index implies #[trigger] entry_value(j) < target@ by {
        assert(entry_value(j) <= entry_value(index - 1));
    }
    assert(answers(index, target@));
}

/// A target strictly between two neighbouring entries gets the sample size
/// of the upper one, which is larger than that of the lower one.
pub proof fn lemma_rounds_up_between_neighbours(target: Lambda, index: int)
    requires
        0 <= index < TABLE_LEN - 1,
        entry_value(index) < target@ < entry_value(index + 1),
    ensures
        sampling_size(target) == entry_size(index + 1),
        sampling_size(target) > entry_size(index),
{
    lemma_table_invariant();
    lemma_lookup_index_answers(target@);
    assert forall|j: int| 0 <= j < index + 1 implies #[trigger] entry_value(j) < target@ by {
        assert(entry_value(j) <= entry_value(index));
    }
    assert(answers(index + 1, target@));
    assert(entry_size(index) < entry_size(index + 1));
}

} // verus!
