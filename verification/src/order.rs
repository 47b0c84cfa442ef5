//! Sorting of small sample windows.
use vstd::prelude::*;

verus! {

/// Ascending order of 64-bit values.
pub open spec fn ascending() -> spec_fn(i64, i64) -> bool {
    |a: i64, b: i64| a <= b
}

/// The values in ascending order.
pub open spec fn sorted(values: Seq<i64>) -> Seq<i64> {
    values.sort_by(ascending())
}

/// A sequence in ascending order with the elements of `values` is `sorted(values)`.
proof fn lemma_sorted_is(values: Seq<i64>, result: Seq<i64>)
    requires
        result.to_multiset() == values.to_multiset(),
        forall|i: int, j: int| 0 <= i < j < result.len() ==> result[i] <= result[j],
    ensures
        result == sorted(values),
{
    let leq = ascending();
    assert(vstd::relations::total_ordering(leq));
    values.lemma_sort_by_ensures(leq);
    assert(vstd::relations::sorted_by(result, leq));
    vstd::seq_lib::lemma_sorted_unique(result, sorted(values), leq);
}

/// Sorting keeps the number of values, keeps the values themselves and puts
/// them in order.
pub proof fn lemma_sorted(values: Seq<i64>)
    ensures
        sorted(values).len() == values.len(),
        sorted(values).to_multiset() == values.to_multiset(),
        forall|i: int, j: int| 0 <= i <= j < values.len() ==> sorted(values)[i] <= sorted(values)[j],
        forall|i: int|
            0 <= i < values.len() ==> values.contains(#[trigger] sorted(values)[i]),
{
    let leq = ascending();
    assert(vstd::relations::total_ordering(leq));
    values.lemma_sort_by_ensures(leq);
    broadcast use vstd::seq_lib::group_to_multiset_ensures;

    let s = sorted(values);
    assert(s.len() == s.to_multiset().len());
    assert forall|i: int, j: int| 0 <= i <= j < values.len() implies s[i] <= s[j] by {
        if i < j {
            assert(leq(s[i], s[j]));
        }
    }
    assert forall|i: int| 0 <= i < values.len() implies values.contains(#[trigger] s[i]) by {
        assert(s.contains(s[i]));
    }
}

/// How many values lie between two bounds.
pub open spec fn count_between(values: Seq<i64>, low: int, high: int) -> nat
    decreases values.len(),
{
    if values.len() == 0 {
        0
    } else {
        count_between(values.drop_last(), low, high) + if low <= values.last() <= high {
            1nat
        } else {
            0nat
        }
    }
}

/// The count of a joined sequence is the sum of the counts.
proof fn lemma_count_concat(a: Seq<i64>, b: Seq<i64>, low: int, high: int)
    ensures
        count_between(a + b, low, high) == count_between(a, low, high) + count_between(
            b,
            low,
            high,
        ),
    decreases b.len(),
{
    if b.len() == 0 {
        assert(a + b =~= a);
    } else {
        lemma_count_concat(a, b.drop_last(), low, high);
        assert((a + b).drop_last() =~= a + b.drop_last());
        assert((a + b).last() == b.last());
    }
}

/// No more values lie between the bounds than there are values.
proof fn lemma_count_bounded(values: Seq<i64>, low: int, high: int)
    ensures
        count_between(values, low, high) <= values.len(),
        (forall|i: int| 0 <= i < values.len() ==> !(low <= #[trigger] values[i] <= high))
            ==> count_between(values, low, high) == 0,
    decreases values.len(),
{
    if values.len() > 0 {
        lemma_count_bounded(values.drop_last(), low, high);
        if forall|i: int| 0 <= i < values.len() ==> !(low <= #[trigger] values[i] <= high) {
            assert forall|i: int| 0 <= i < values.drop_last().len() implies !(low
                <= #[trigger] values.drop_last()[i] <= high) by {
                assert(values.drop_last()[i] == values[i]);
            }
            assert(!(low <= values[values.len() - 1] <= high));
        }
    }
}

/// The count depends on the values, not on their order.
proof fn lemma_count_unordered(a: Seq<i64>, b: Seq<i64>, low: int, high: int)
    requires
        a.to_multiset() == b.to_multiset(),
    ensures
        count_between(a, low, high) == count_between(b, low, high),
    decreases a.len(),
{
    broadcast use vstd::seq_lib::group_to_multiset_ensures;
    broadcast use vstd::multiset::group_multiset_axioms;

    assert(a.len() == a.to_multiset().len());
    assert(b.len() == b.to_multiset().len());
    if a.len() > 0 {
        let last = a.last();
        assert(a.contains(last)) by {
            assert(a[a.len() - 1] == last);
        }
        assert(b.to_multiset().count(last) > 0);
        assert(b.contains(last));
        let j = choose|j: int| 0 <= j < b.len() && b[j] == last;
        let front = b.take(j);
        let back = b.skip(j + 1);
        assert(b =~= front + seq![last] + back);
        assert(b.remove(j) =~= front + back);
        assert(a.drop_last() =~= a.remove(a.len() - 1));
        assert(b.remove(j).to_multiset() =~= b.to_multiset().remove(last));
        assert(a.drop_last().to_multiset() =~= a.to_multiset().remove(last));
        lemma_count_unordered(a.drop_last(), b.remove(j), low, high);
        lemma_count_concat(front, back, low, high);
        lemma_count_concat(front + seq![last], back, low, high);
        lemma_count_concat(front, seq![last], low, high);
        assert(count_between(seq![last], low, high) == if low <= last <= high {
            1nat
        } else {
            0nat
        }) by {
            reveal_with_fuel(count_between, 2);
            assert(seq![last].drop_last() =~= Seq::<i64>::empty());
        }
    }
}

/// Where more than half of the values lie between two bounds, so does the
/// middle of the sorted values, and with an even number also the one below it.
pub proof fn law_majority_bounds_the_middle(values: Seq<i64>, low: int, high: int)
    requires
        2 * count_between(values, low, high) > values.len(),
    ensures
        values.len() > 0,
        low <= sorted(values)[(values.len() / 2) as int] <= high,
        values.len() % 2 == 0 ==> low <= sorted(values)[values.len() / 2 - 1] <= high,
{
    let s = sorted(values);
    let n = values.len() as int;
    lemma_sorted(values);
    lemma_count_bounded(values, low, high);
    lemma_count_unordered(values, s, low, high);
    lemma_position_bounded(s, low, high, n / 2);
    if n % 2 == 0 {
        lemma_position_bounded(s, low, high, n / 2 - 1);
    }
}

/// In sorted values, fewer than the count lie outside on either side of a
/// value between the bounds.
proof fn lemma_position_bounded(s: Seq<i64>, low: int, high: int, at: int)
    requires
        forall|i: int, j: int| 0 <= i <= j < s.len() ==> s[i] <= s[j],
        0 <= at < s.len(),
        count_between(s, low, high) > s.len() - at - 1,
        count_between(s, low, high) > at,
    ensures
        low <= s[at] <= high,
{
    if s[at] < low {
        let outside = s.take(at + 1);
        let rest = s.skip(at + 1);
        assert(outside + rest =~= s);
        lemma_count_concat(outside, rest, low, high);
        assert forall|i: int| 0 <= i < outside.len() implies !(low <= #[trigger] outside[i]
            <= high) by {
            assert(s[i] <= s[at]);
        }
        lemma_count_bounded(outside, low, high);
        lemma_count_bounded(rest, low, high);
    }
    if s[at] > high {
        let outside = s.skip(at);
        let rest = s.take(at);
        assert(rest + outside =~= s);
        lemma_count_concat(rest, outside, low, high);
        assert forall|i: int| 0 <= i < outside.len() implies !(low <= #[trigger] outside[i]
            <= high) by {
            assert(s[at] <= s[at + i]);
        }
        lemma_count_bounded(outside, low, high);
        lemma_count_bounded(rest, low, high);
    }
}

/// Values that all lie between the bounds are all counted.
proof fn lemma_all_counted(values: Seq<i64>, low: int, high: int)
    requires
        forall|i: int| 0 <= i < values.len() ==> low <= #[trigger] values[i] <= high,
    ensures
        count_between(values, low, high) == values.len(),
    decreases values.len(),
{
    if values.len() > 0 {
        assert forall|i: int| 0 <= i < values.drop_last().len() implies low
            <= #[trigger] values.drop_last()[i] <= high by {
            assert(values.drop_last()[i] == values[i]);
        }
        lemma_all_counted(values.drop_last(), low, high);
        assert(low <= values[values.len() - 1] <= high);
    }
}

/// The middle of the sorted values is one of the values. More than half of them
/// are not above it, and at least half are not below it.
pub proof fn law_middle_has_half_on_each_side(values: Seq<i64>)
    requires
        values.len() > 0,
    ensures
        ({
            let middle = sorted(values)[(values.len() / 2) as int];
            &&& values.contains(middle)
            &&& 2 * count_between(values, i64::MIN as int, middle as int) > values.len()
            &&& 2 * count_between(values, middle as int, i64::MAX as int) >= values.len()
        }),
{
    let s = sorted(values);
    let at = (values.len() / 2) as int;
    let middle = s[at] as int;
    let lowest = i64::MIN as int;
    let highest = i64::MAX as int;
    lemma_sorted(values);
    lemma_count_unordered(values, s, lowest, middle);
    lemma_count_unordered(values, s, middle, highest);
    assert(values.contains(s[at]));
    assert(s.take(at + 1) + s.skip(at + 1) =~= s);
    assert(s.take(at) + s.skip(at) =~= s);
    lemma_count_concat(s.take(at + 1), s.skip(at + 1), lowest, middle);
    lemma_count_concat(s.take(at), s.skip(at), middle, highest);
    assert forall|i: int| 0 <= i < s.take(at + 1).len() implies lowest <= #[trigger] s.take(
        at + 1,
    )[i] <= middle by {
        assert(s[i] <= s[at]);
    }
    assert forall|i: int| 0 <= i < s.skip(at).len() implies middle <= #[trigger] s.skip(at)[i]
        <= highest by {
        assert(s[at] <= s[at + i]);
    }
    lemma_all_counted(s.take(at + 1), lowest, middle);
    lemma_all_counted(s.skip(at), middle, highest);
}

/// The first and the last of the sorted values are values that all others lie
/// between.
pub proof fn law_ends_enclose_the_values(values: Seq<i64>, i: int)
    requires
        0 <= i < values.len(),
    ensures
        values.contains(sorted(values)[0]),
        values.contains(sorted(values)[values.len() - 1]),
        sorted(values)[0] <= values[i] <= sorted(values)[values.len() - 1],
{
    let s = sorted(values);
    lemma_sorted(values);
    assert(values.contains(s[0]) && values.contains(s[values.len() - 1]));
    broadcast use vstd::seq_lib::group_to_multiset_ensures;

    assert(values.contains(values[i]));
    assert(s.to_multiset().count(values[i]) > 0);
    assert(s.contains(values[i]));
    let k = choose|k: int| 0 <= k < s.len() && s[k] == values[i];
    assert(s[0] <= s[k] <= s[values.len() - 1]);
}

/// Exchanging two elements keeps the multiset of a sequence.
proof fn lemma_swap_multiset(before: Seq<i64>, after: Seq<i64>, i: int, j: int)
    requires
        0 <= i < before.len(),
        0 <= j < before.len(),
        after == before.update(i, before[j]).update(j, before[i]),
    ensures
        after.to_multiset() == before.to_multiset(),
{
    broadcast use vstd::seq_lib::group_to_multiset_ensures;
    broadcast use vstd::multiset::group_multiset_axioms;

    let middle = before.update(i, before[j]);
    vstd::seq_lib::to_multiset_update(before, i, before[j]);
    vstd::seq_lib::to_multiset_update(middle, j, before[i]);
    if i == j {
        assert(after =~= before);
    } else {
        assert(before.contains(before[i]));
        assert(after.to_multiset() =~= before.to_multiset());
    }
}

/// Sorts the values in place, in ascending order.
pub fn insertion_sort(values: &mut Vec<i64>)
    ensures
        final(values)@ == sorted(old(values)@),
{
    let mut index: usize = 1;
    while index < values.len()
        invariant
            index >= 1,
            values@.len() == old(values)@.len(),
            values@.to_multiset() == old(values)@.to_multiset(),
            forall|i: int, j: int|
                0 <= i < j < index && j < values@.len() ==> values@[i] <= values@[j],
        decreases values.len() - index,
    {
        let mut cursor: usize = index;
        while cursor > 0 && values[cursor - 1] > values[cursor]
            invariant
                cursor <= index < values@.len(),
                values@.len() == old(values)@.len(),
                values@.to_multiset() == old(values)@.to_multiset(),
                forall|i: int, j: int|
                    0 <= i < j <= index && j != cursor ==> values@[i] <= values@[j],
            decreases cursor,
        {
            let ghost before = values@;
            let lower: i64 = values[cursor - 1];
            let upper: i64 = values[cursor];
            values.set(cursor - 1, upper);
            values.set(cursor, lower);
            proof {
                lemma_swap_multiset(before, values@, cursor as int - 1, cursor as int);
            }
            cursor = cursor - 1;
        }
        index = index + 1;
    }
    proof {
        lemma_sorted_is(old(values)@, values@);
    }
}

} // verus!
