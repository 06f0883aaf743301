//! Weight bookkeeping: the total weight of a list of items and the weight of
//! all items but one.

use vstd::prelude::*;
use crate::item::Item;

verus! {

/// The summed weight of `items`.
pub open spec fn weight_sum(items: Seq<Item>) -> nat
    decreases items.len(),
{
    if items.len() == 0 {
        0
    } else {
        weight_sum(items.drop_last()) + items.last().weight as nat
    }
}

/// The total by which shares are measured: the summed weight, or 1 where
/// that sum is 0, so that it can always be divided by.
pub open spec fn total_weight_of(items: Seq<Item>) -> nat {
    if weight_sum(items) == 0 {
        1
    } else {
        weight_sum(items)
    }
}

/// The summed weight of every item but the one at `index`, or 1 where that
/// sum is 0.
pub open spec fn others_weight_of(items: Seq<Item>, index: int) -> nat {
    if weight_sum(items.remove(index)) == 0 {
        1
    } else {
        weight_sum(items.remove(index))
    }
}

/// Taking one more item adds that item's weight to the sum.
pub proof fn lemma_weight_sum_take(items: Seq<Item>, i: int)
    requires
        0 <= i < items.len(),
    ensures
        weight_sum(items.take(i + 1)) == weight_sum(items.take(i)) + items[i].weight,
{
    assert(items.take(i + 1).drop_last() =~= items.take(i));
}

/// Pushing an item adds its weight to the sum.
pub proof fn lemma_weight_sum_push(items: Seq<Item>, item: Item)
    ensures
        weight_sum(items.push(item)) == weight_sum(items) + item.weight,
{
    assert(items.push(item).drop_last() =~= items);
}

/// The sum of a concatenation is the sum of the sums.
pub proof fn lemma_weight_sum_concat(front: Seq<Item>, back: Seq<Item>)
    ensures
        weight_sum(front + back) == weight_sum(front) + weight_sum(back),
    decreases back.len(),
{
    if back.len() == 0 {
        assert(front + back =~= front);
    } else {
        lemma_weight_sum_concat(front, back.drop_last());
        assert((front + back).drop_last() =~= front + back.drop_last());
    }
}

/// Removing an item takes its weight off the sum.
pub proof fn lemma_weight_sum_remove(items: Seq<Item>, index: int)
    requires
        0 <= index < items.len(),
    ensures
        weight_sum(items.remove(index)) + items[index].weight == weight_sum(items),
{
    let front = items.take(index);
    let back = items.skip(index + 1);
    assert(items =~= front.push(items[index]) + back);
    assert(items.remove(index) =~= front + back);
    lemma_weight_sum_concat(front.push(items[index]), back);
    lemma_weight_sum_concat(front, back);
    lemma_weight_sum_push(front, items[index]);
}

/// Replacing an item's weight moves the sum by the difference.
pub proof fn lemma_weight_sum_update(items: Seq<Item>, index: int, item: Item)
    requires
        0 <= index < items.len(),
    ensures
        weight_sum(items.update(index, item)) + items[index].weight == weight_sum(items)
            + item.weight,
        items.update(index, item).remove(index) == items.remove(index),
{
    assert(items.update(index, item).remove(index) =~= items.remove(index));
    lemma_weight_sum_remove(items, index);
    lemma_weight_sum_remove(items.update(index, item), index);
}

/// A sum of `items.len()` weights is at most that many times the largest
/// weight an item can hold.
pub proof fn lemma_weight_sum_bound(items: Seq<Item>)
    ensures
        weight_sum(items) <= items.len() * u32::MAX,
    decreases items.len(),
{
    if items.len() > 0 {
        lemma_weight_sum_bound(items.drop_last());
        assert(items.len() * u32::MAX == (items.len() - 1) * u32::MAX + u32::MAX)
            by (nonlinear_arith);
    }
}

/// The sum grows along the list.
pub proof fn lemma_weight_sum_monotone(items: Seq<Item>, i: int, j: int)
    requires
        0 <= i <= j <= items.len(),
    ensures
        weight_sum(items.take(i)) <= weight_sum(items.take(j)),
    decreases j - i,
{
    if i < j {
        lemma_weight_sum_monotone(items, i, j - 1);
        lemma_weight_sum_take(items, j - 1);
    }
}

/// The summed weight of `items`, exactly: the sum of as many `u32` weights
/// as a vector can hold always fits.
pub fn sum_weights(items: &Vec<Item>) -> (sum: u128)
    ensures
        sum == weight_sum(items@),
{
    let mut sum: u128 = 0;
    let mut i: usize = 0;
    while i < items.len()
        invariant
            0 <= i <= items.len(),
            sum == weight_sum(items@.take(i as int)),
            sum <= i * u32::MAX,
        decreases items.len() - i,
    {
        proof {
            lemma_weight_sum_take(items@, i as int);
            assert((i + 1) * u32::MAX == i * u32::MAX + u32::MAX) by (nonlinear_arith);
            assert(i * u32::MAX <= usize::MAX * u32::MAX) by (nonlinear_arith)
                requires
                    i <= usize::MAX,
            ;
        }
        sum = sum + items[i].weight as u128;
        i = i + 1;
    }
    proof {
        assert(items@.take(items.len() as int) =~= items@);
    }
    sum
}

/// The total weight of `items`, never less than 1.
pub fn total_weight(items: &Vec<Item>) -> (total: u128)
    ensures
        total == total_weight_of(items@),
        total >= 1,
{
    let sum = sum_weights(items);
    if sum == 0 {
        1
    } else {
        sum
    }
}

/// The weight of every item but the one at `index`, never less than 1.
pub fn others_weight(items: &Vec<Item>, index: usize) -> (others: u128)
    requires
        index < items.len(),
    ensures
        others == others_weight_of(items@, index as int),
        others >= 1,
{
    let sum = sum_weights(items);
    proof {
        lemma_weight_sum_remove(items@, index as int);
    }
    let rest = sum - items[index].weight as u128;
    if rest == 0 {
        1
    } else {
        rest
    }
}

} // verus!
