//! Editing a weight by the share it should have.
//!
//! A share is a percentage in millionths of a percent. Asking for a share of
//! the wheel for one item sets that item's weight and leaves every other
//! weight alone: with the others weighing `o` together, a share `p` of 100
//! asks for the weight `p / (100 - p) * o`, rounded to the nearest whole
//! weight, halves upwards.

use vstd::prelude::*;
use crate::item::Item;
use crate::text::{trim, trimmed};
use crate::weights::{
    lemma_weight_sum_remove, lemma_weight_sum_update, others_weight, others_weight_of,
    total_weight_of, weight_sum,
};

verus! {

/// One percent.
pub const ONE_PERCENT: u64 = 1_000_000;

/// The whole wheel: one hundred percent.
pub const FULL_SHARE: u64 = 100_000_000;

/// From this many items on, no item may ask for more than one percent.
pub const CROWD: usize = 100;

/// What was typed for a percentage, once it was read as a number.
#[derive(Clone, Copy, PartialEq, Eq, Debug, Structural)]
pub enum TypedShare {
    /// The text is no number.
    Unreadable,
    /// The text reads as a number that has no value (not-a-number).
    NotANumber,
    /// The text reads as this many millionths of a percent.
    Share(i64),
}

/// `text` without the percent signs at its end.
pub open spec fn without_percent_signs(text: Seq<char>) -> Seq<char>
    decreases text.len(),
{
    if text.len() > 0 && text.last() == '%' {
        without_percent_signs(text.drop_last())
    } else {
        text
    }
}

/// The part of a typed percentage that holds the number: the text without
/// the white space around it and then without the percent signs at its end.
pub open spec fn number_part(text: Seq<char>) -> Seq<char> {
    without_percent_signs(trimmed(text))
}

/// The part of a typed percentage that holds the number.
pub fn number_text(text: &str) -> (number: String)
    ensures
        number@ == number_part(text@),
{
    let inner = trim(text);
    let mut end: usize = inner.as_str().unicode_len();
    assert(inner@.subrange(0, end as int) =~= inner@);
    while end > 0 && inner.as_str().get_char(end - 1) == '%'
        invariant
            end <= inner@.len(),
            without_percent_signs(inner@) == without_percent_signs(inner@.subrange(0, end as int)),
        decreases end,
    {
        proof {
            let rest = inner@.subrange(0, end as int);
            assert(rest.drop_last() =~= inner@.subrange(0, end - 1));
        }
        end = end - 1;
    }
    inner.as_str().substring_char(0, end).to_string()
}

/// The largest share one item of `count` may ask for: what is left when every
/// other item keeps one percent, and never less than one percent.
pub open spec fn largest_share(count: int) -> int {
    if count >= 100 {
        ONE_PERCENT as int
    } else if count <= 1 {
        FULL_SHARE as int
    } else {
        (101 - count) * ONE_PERCENT
    }
}

/// The share granted when `requested` is asked for among `count` items: the
/// request, held between one percent and the largest share.
pub open spec fn clamped_share(requested: int, count: int) -> int {
    if requested < ONE_PERCENT {
        ONE_PERCENT as int
    } else if requested > largest_share(count) {
        largest_share(count)
    } else {
        requested
    }
}

/// `numerator / denominator` rounded to the nearest integer, halves upwards,
/// for a numerator that is not negative and a positive denominator.
pub open spec fn rounded_quotient(numerator: int, denominator: int) -> int {
    (2 * numerator + denominator) / (2 * denominator)
}

/// The weight that gives an item the share `share` beside others of summed
/// weight `others`: the rounded ideal weight, held between 1 and the largest
/// weight an item can have. The full share, which no weight can give, asks
/// for the largest weight.
pub open spec fn weight_for_share(share: int, others: int) -> int {
    if share >= FULL_SHARE {
        u32::MAX as int
    } else {
        let ideal = rounded_quotient(share * others, FULL_SHARE - share);
        if ideal < 1 {
            1
        } else if ideal > u32::MAX {
            u32::MAX as int
        } else {
            ideal
        }
    }
}

/// The weight that the item at `index` gets when `requested` is asked for it.
pub open spec fn requested_weight(items: Seq<Item>, index: int, requested: int) -> int {
    weight_for_share(
        clamped_share(requested, items.len() as int),
        others_weight_of(items, index) as int,
    )
}

/// `items` after `requested` was asked for the item at `index`: that item
/// with its new weight, every other item as it was.
pub open spec fn with_share(items: Seq<Item>, index: int, requested: int) -> Seq<Item> {
    items.update(
        index,
        Item { name: items[index].name, weight: requested_weight(items, index, requested) as u32 },
    )
}

/// `items` after `typed` was entered for the item at `index`. Text that is
/// no number changes nothing. A number without a value cannot be held
/// between bounds and asks for no weight at all, which leaves the item with
/// the least weight, 1. A share gives the item the weight that it asks for.
pub open spec fn with_typed_share(items: Seq<Item>, index: int, typed: TypedShare) -> Seq<Item> {
    match typed {
        TypedShare::Unreadable => items,
        TypedShare::NotANumber => items.update(index, Item { name: items[index].name, weight: 1 }),
        TypedShare::Share(requested) => with_share(items, index, requested as int),
    }
}

/// The share granted when `requested` is asked for among `count` items.
pub fn clamp_share(requested: i64, count: usize) -> (share: u64)
    ensures
        share == clamped_share(requested as int, count as int),
        ONE_PERCENT <= share <= FULL_SHARE,
{
    let largest: u64 = if count >= CROWD {
        ONE_PERCENT
    } else if count <= 1 {
        FULL_SHARE
    } else {
        (101 - count as u64) * ONE_PERCENT
    };
    if requested < ONE_PERCENT as i64 {
        ONE_PERCENT
    } else if requested as u64 > largest {
        largest
    } else {
        requested as u64
    }
}

/// Beside others heavy enough, every share asks for more than an item can
/// weigh.
proof fn lemma_heavy_others_saturate(share: int, others: int)
    requires
        ONE_PERCENT <= share < FULL_SHARE,
        others >= 99 * 0x1_0000_0000,
    ensures
        rounded_quotient(share * others, FULL_SHARE - share) > u32::MAX,
{
    let d = FULL_SHARE - share;
    let n = share * others;
    assert(2 * n + d >= (2 * d) * 0x1_0000_0000) by (nonlinear_arith)
        requires
            n == share * others,
            d == FULL_SHARE - share,
            ONE_PERCENT <= share < FULL_SHARE,
            others >= 99 * 0x1_0000_0000,
    ;
    vstd::arithmetic::div_mod::lemma_div_is_ordered((2 * d) * 0x1_0000_0000, 2 * n + d, 2 * d);
    vstd::arithmetic::div_mod::lemma_div_multiples_vanish(0x1_0000_0000, 2 * d);
    assert((2 * d) * 0x1_0000_0000 == 0x1_0000_0000 * (2 * d)) by (nonlinear_arith);
}

/// The weight that gives an item the share `share` beside others of summed
/// weight `others`.
pub fn share_weight(share: u64, others: u128) -> (weight: u32)
    requires
        ONE_PERCENT <= share <= FULL_SHARE,
    ensures
        weight == weight_for_share(share as int, others as int),
        weight >= 1,
{
    if share >= FULL_SHARE {
        return u32::MAX;
    }
    if others >= 99 * 0x1_0000_0000 {
        proof {
            lemma_heavy_others_saturate(share as int, others as int);
        }
        return u32::MAX;
    }
    let denominator: u128 = (FULL_SHARE - share) as u128;
    assert(share * others <= FULL_SHARE * (99 * 0x1_0000_0000)) by (nonlinear_arith)
        requires
            share <= FULL_SHARE,
            others <= 99 * 0x1_0000_0000,
    ;
    let numerator: u128 = share as u128 * others;
    let ideal: u128 = (2 * numerator + denominator) / (2 * denominator);
    if ideal < 1 {
        1
    } else if ideal > u32::MAX as u128 {
        u32::MAX
    } else {
        ideal as u32
    }
}

/// The weight for a share is the whole weight nearest to the ideal one: with
/// `w` the weight, `p` the share and `o` the others' weight, `w * (100 - p)`
/// differs from `p * o` by at most half of `100 - p`, wherever the rounded
/// ideal weight is one an item can have.
pub proof fn lemma_share_weight_is_nearest(share: int, others: int)
    requires
        0 <= share < FULL_SHARE,
        0 <= others,
        1 <= rounded_quotient(share * others, FULL_SHARE - share) <= u32::MAX,
    ensures
        ({
            let weight = weight_for_share(share, others);
            let slack = FULL_SHARE - share;
            -slack <= 2 * (weight * slack - share * others) <= slack
        }),
{
    let slack = FULL_SHARE - share;
    let ideal = share * others;
    let weight = weight_for_share(share, others);
    assert(0 <= ideal) by (nonlinear_arith)
        requires
            ideal == share * others,
            0 <= share,
            0 <= others,
    ;
    vstd::arithmetic::div_mod::lemma_fundamental_div_mod(2 * ideal + slack, 2 * slack);
    vstd::arithmetic::div_mod::lemma_mod_bound(2 * ideal + slack, 2 * slack);
    assert((2 * slack) * weight == 2 * (weight * slack)) by (nonlinear_arith);
}

/// Asking for a share and then reading the item's share of the new total
/// gives the granted share back to within one percent. This holds where the
/// other items have weight, the rounded ideal weight is one an item can
/// have, and the new total is at least 50: on a lighter wheel one step of
/// weight is worth more than a percent.
pub proof fn lemma_share_reads_back(items: Seq<Item>, index: int, requested: int)
    requires
        0 <= index < items.len(),
        weight_sum(items.remove(index)) >= 1,
        rounded_quotient(
            clamped_share(requested, items.len() as int) * others_weight_of(items, index),
            FULL_SHARE - clamped_share(requested, items.len() as int),
        ) <= u32::MAX,
        total_weight_of(with_share(items, index, requested)) >= 50,
    ensures
        ({
            let share = clamped_share(requested, items.len() as int);
            let after = with_share(items, index, requested);
            let total = total_weight_of(after);
            let read = FULL_SHARE * after[index].weight;
            share * total - ONE_PERCENT * total <= read <= share * total + ONE_PERCENT * total
        }),
{
    let share = clamped_share(requested, items.len() as int);
    let others = weight_sum(items.remove(index)) as int;
    let after = with_share(items, index, requested);
    let weight = weight_for_share(share, others);
    let slack = FULL_SHARE - share;
    let ideal = share * others;
    assert(items.len() >= 2) by {
        if items.len() < 2 {
            assert(items.remove(index) =~= Seq::<Item>::empty());
        }
    }
    assert(after[index].weight == weight);
    lemma_weight_sum_update(items, index, after[index]);
    lemma_weight_sum_remove(items, index);
    let total = others + weight;
    assert(total_weight_of(after) == total);
    assert(FULL_SHARE * weight - share * total == weight * slack - ideal) by (nonlinear_arith)
        requires
            total == others + weight,
            slack == FULL_SHARE - share,
            ideal == share * others,
    ;
    assert(0 <= ideal) by (nonlinear_arith)
        requires
            ideal == share * others,
            0 <= share,
            0 <= others,
    ;
    let rounded = rounded_quotient(ideal, slack);
    let read = FULL_SHARE * weight;
    let asked = share * total;
    let unit = ONE_PERCENT * total;
    let off = weight * slack - ideal;
    assert(read - asked == off);
    assert(slack <= 99 * ONE_PERCENT);
    assert(unit >= 50 * ONE_PERCENT) by (nonlinear_arith)
        requires
            unit == ONE_PERCENT * total,
            total >= 50,
    ;
    if rounded >= 1 {
        lemma_share_weight_is_nearest(share, others);
        assert(-slack <= 2 * off <= slack);
    } else {
        vstd::arithmetic::div_mod::lemma_fundamental_div_mod(2 * ideal + slack, 2 * slack);
        vstd::arithmetic::div_mod::lemma_mod_bound(2 * ideal + slack, 2 * slack);
        vstd::arithmetic::div_mod::lemma_div_pos_is_pos(2 * ideal + slack, 2 * slack);
        assert(rounded == 0);
        assert((2 * slack) * 0 == 0);
        assert(2 * ideal < slack);
        assert(weight == 1);
        assert(off == slack - ideal) by (nonlinear_arith)
            requires
                off == weight * slack - ideal,
                weight == 1,
        ;
        assert(total == others + 1);
        assert(ideal >= ONE_PERCENT * 49) by (nonlinear_arith)
            requires
                ideal == share * others,
                share >= ONE_PERCENT,
                others >= 49,
        ;
        assert(0 <= off <= 50 * ONE_PERCENT);
    }
    assert(asked - unit <= read <= asked + unit);
}

/// Gives the item at `index` the weight that `requested` asks for.
pub fn set_share(items: &mut Vec<Item>, index: usize, requested: i64)
    requires
        index < old(items).len(),
    ensures
        final(items)@ == with_share(old(items)@, index as int, requested as int),
        final(items)@[index as int].weight >= 1,
{
    let share = clamp_share(requested, items.len());
    let others = others_weight(items, index);
    let weight = share_weight(share, others);
    items[index].weight = weight;
    assert(items@ =~= with_share(old(items)@, index as int, requested as int));
}

} // verus!
