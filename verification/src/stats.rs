//! Median and minimum of a list of values.

use vstd::prelude::*;
use vstd::relations::{sorted_by, total_ordering};
use vstd::seq_lib::lemma_sorted_unique;

verus! {

/// The order of the integers, as a relation.
pub open spec fn at_most() -> spec_fn(i32, i32) -> bool {
    |a: i32, b: i32| a <= b
}

/// The values in ascending order.
pub open spec fn ascending(values: Seq<i32>) -> Seq<i32> {
    values.sort_by(at_most())
}

/// The median of `values`: the value in the middle when they are put in
/// ascending order, and the upper of the two in the middle when their
/// number is even. It is always one of the values.
pub open spec fn median_value(values: Seq<i32>) -> i32
    recommends
        values.len() > 0,
{
    ascending(values)[values.len() as int / 2]
}

/// The least of `values`.
pub open spec fn least_value(values: Seq<i32>) -> i32
    recommends
        values.len() > 0,
    decreases values.len(),
{
    if values.len() <= 1 {
        values[0]
    } else {
        let rest = least_value(values.drop_last());
        if values.last() < rest {
            values.last()
        } else {
            rest
        }
    }
}

/// `at_most` is a total order.
pub proof fn lemma_at_most_is_total()
    ensures
        total_ordering(at_most()),
{
}

/// The least value is one of the values and no value lies below it.
pub proof fn lemma_least_value_is_least(values: Seq<i32>)
    requires
        values.len() > 0,
    ensures
        values.contains(least_value(values)),
        forall|i: int| 0 <= i < values.len() ==> least_value(values) <= #[trigger] values[i],
    decreases values.len(),
{
    if values.len() > 1 {
        let rest = values.drop_last();
        lemma_least_value_is_least(rest);
        let k = choose|k: int| 0 <= k < rest.len() && rest[k] == least_value(rest);
        assert(values[k] == rest[k]);
        assert(values[values.len() - 1] == values.last());
        assert forall|i: int| 0 <= i < values.len() implies least_value(values)
            <= #[trigger] values[i] by {
            if i < rest.len() {
                assert(rest[i] == values[i]);
            }
        }
    } else {
        assert(values[0] == least_value(values));
    }
}

/// The sequence with `value` put in at `position` holds what the sequence
/// held and `value` once more.
pub proof fn lemma_insert_to_multiset<A>(values: Seq<A>, position: int, value: A)
    requires
        0 <= position <= values.len(),
    ensures
        values.insert(position, value).to_multiset() =~= values.to_multiset().insert(value),
{
    broadcast use vstd::multiset::group_multiset_axioms;

    let longer = values.insert(position, value);
    longer.to_multiset_ensures();
    assert(longer[position] == value);
    assert(longer.remove(position) =~= values);
    assert(longer.contains(value));
}

/// The values of `values` in ascending order.
pub fn sorted_copy(values: &Vec<i32>) -> (sorted: Vec<i32>)
    ensures
        sorted@ == ascending(values@),
        sorted@.len() == values@.len(),
{
    let mut sorted: Vec<i32> = Vec::new();
    let mut i: usize = 0;
    proof {
        assert(sorted@ =~= values@.take(0));
    }
    while i < values.len()
        invariant
            i <= values.len(),
            sorted@.len() == i,
            sorted_by(sorted@, at_most()),
            sorted@.to_multiset() =~= values@.take(i as int).to_multiset(),
        decreases values.len() - i,
    {
        let value: i32 = values[i];
        let mut position: usize = sorted.len();
        while position > 0 && sorted[position - 1] > value
            invariant
                position <= sorted.len(),
                forall|k: int| position <= k < sorted.len() ==> value < #[trigger] sorted@[k],
            decreases position,
        {
            position = position - 1;
        }
        proof {
            let before = sorted@;
            let after = before.insert(position as int, value);
            lemma_insert_to_multiset(before, position as int, value);
            values@.take(i as int).to_multiset_ensures();
            assert(values@.take(i + 1) =~= values@.take(i as int).push(value));
            assert forall|a: int, b: int| 0 <= a < b < after.len() implies (at_most())(
                after[a],
                after[b],
            ) by {
                if a < position && b > position {
                    assert(before[a] <= before[position - 1]) by {
                        if a < position - 1 {
                            assert((at_most())(before[a], before[position - 1]));
                        }
                    }
                    assert(value < before[b - 1]);
                } else if a < position && b < position {
                    assert((at_most())(before[a], before[b]));
                } else if a < position && b == position {
                    assert(before[a] <= before[position - 1]) by {
                        if a < position - 1 {
                            assert((at_most())(before[a], before[position - 1]));
                        }
                    }
                } else if a == position {
                    assert(value < before[b - 1]);
                } else {
                    assert((at_most())(before[a - 1], before[b - 1]));
                }
            }
        }
        sorted.insert(position, value);
        i = i + 1;
    }
    proof {
        assert(values@.take(i as int) =~= values@);
        lemma_at_most_is_total();
        values@.lemma_sort_by_ensures(at_most());
        lemma_sorted_unique(sorted@, ascending(values@), at_most());
    }
    sorted
}

/// The median of `values`, if there are any.
pub fn median(values: &Vec<i32>) -> (middle: Option<i32>)
    ensures
        middle == (if values@.len() == 0 {
            None
        } else {
            Some(median_value(values@))
        }),
{
    if values.len() == 0 {
        None
    } else {
        let sorted = sorted_copy(values);
        Some(sorted[values.len() / 2])
    }
}

/// The least of `values`, if there are any.
pub fn minimum(values: &Vec<i32>) -> (least: Option<i32>)
    ensures
        least == (if values@.len() == 0 {
            None
        } else {
            Some(least_value(values@))
        }),
{
    if values.len() == 0 {
        return None;
    }
    let mut least: i32 = values[0];
    let mut i: usize = 1;
    proof {
        assert(values@.take(1).len() == 1);
    }
    while i < values.len()
        invariant
            1 <= i <= values.len(),
            least == least_value(values@.take(i as int)),
        decreases values.len() - i,
    {
        proof {
            assert(values@.take(i + 1).drop_last() =~= values@.take(i as int));
        }
        if values[i] < least {
            least = values[i];
        }
        i = i + 1;
    }
    proof {
        assert(values@.take(i as int) =~= values@);
    }
    Some(least)
}

} // verus!
