//! From the angle at which the wheel rests to the item under the pointer.
//!
//! The first item's slice starts under the pointer, a quarter turn before
//! angle 0, and the slices follow one another in list order, each as wide as
//! its share of the total weight.

use vstd::prelude::*;
use vstd::arithmetic::div_mod::{lemma_fundamental_div_mod, lemma_fundamental_div_mod_converse};
use crate::item::Item;
use crate::weights::{
    lemma_weight_sum_monotone, lemma_weight_sum_take, total_weight, total_weight_of, weight_sum,
};

verus! {

/// A full turn, in micro-radians.
pub const TURN: u64 = 6_283_185;

/// A quarter of a turn, in micro-radians.
pub const QUARTER_TURN: u64 = 1_570_796;

/// Where on the wheel the pointer stands after the wheel has turned by
/// `rotation`: the rotation less a quarter turn, brought into `[0, TURN)`.
pub open spec fn pointer_angle(rotation: int) -> int {
    (rotation - QUARTER_TURN) % (TURN as int)
}

/// The pointer's place on the wheel, in `[0, TURN)`, whatever the sign of
/// the rotation.
pub fn normalize(rotation: i64) -> (angle: u64)
    ensures
        angle == pointer_angle(rotation as int),
        angle < TURN,
{
    let turn: i128 = TURN as i128;
    let shifted: i128 = rotation as i128 - QUARTER_TURN as i128;
    let within: i128 = shifted % turn;
    let angle: i128 = (within + turn) % turn;
    proof {
        let t = TURN as int;
        let s = shifted as int;
        let back = if s < 0 {
            -s
        } else {
            s
        };
        lemma_fundamental_div_mod(back, t);
        lemma_fundamental_div_mod(within + t, t);
        // the remainder keeps the sign of what is divided
        assert(within == if s < 0 {
            -(back % t)
        } else {
            back % t
        });
        let q = if s < 0 {
            -(back / t) + (within + t) / t - 1
        } else {
            back / t + (within + t) / t - 1
        };
        assert(s == q * t + angle) by (nonlinear_arith)
            requires
                back == t * (back / t) + back % t,
                within + t == t * ((within + t) / t) + angle,
                s < 0 ==> s == -back && within == -(back % t) && q == -(back / t) + (within + t)
                    / t - 1,
                s >= 0 ==> s == back && within == back % t && q == back / t + (within + t) / t
                    - 1,
        ;
        lemma_fundamental_div_mod_converse(s, t, q, angle as int);
    }
    angle as u64
}

/// Where the slice of the item at `index` ends, in units of weight: the
/// summed weight of the items up to and including it.
pub open spec fn slice_end(items: Seq<Item>, index: int) -> nat {
    weight_sum(items.take(index + 1))
}

/// The pointer at `angle` stands before the end of the slice at `index`:
/// the turned fraction of the wheel is less than the share of the items up
/// to and including that one.
pub open spec fn reaches(items: Seq<Item>, angle: int, index: int) -> bool {
    angle * total_weight_of(items) < slice_end(items, index) * TURN
}

/// `winner` is the item chosen at `angle`: the first whose slice the pointer
/// has not passed, or the last item where there is none such. In an empty
/// list it is 0.
pub open spec fn is_winner(items: Seq<Item>, angle: int, winner: int) -> bool {
    if items.len() == 0 {
        winner == 0
    } else {
        &&& 0 <= winner < items.len()
        &&& forall|j: int| 0 <= j < winner ==> !reaches(items, angle, j)
        &&& (reaches(items, angle, winner) || winner == items.len() - 1)
    }
}

/// The winner among the items from `start` on, given that the pointer has
/// passed every slice before `start`.
pub open spec fn winner_from(items: Seq<Item>, angle: int, start: int) -> int
    decreases items.len() - start,
{
    if start >= items.len() - 1 {
        items.len() - 1
    } else if reaches(items, angle, start) {
        start
    } else {
        winner_from(items, angle, start + 1)
    }
}

/// The index of the item chosen at `angle`.
pub open spec fn winner_of(items: Seq<Item>, angle: int) -> int {
    if items.len() == 0 {
        0
    } else {
        winner_from(items, angle, 0)
    }
}

proof fn lemma_winner_from(items: Seq<Item>, angle: int, start: int)
    requires
        0 <= start < items.len(),
    ensures
        start <= winner_from(items, angle, start) < items.len(),
        forall|j: int|
            start <= j < winner_from(items, angle, start) ==> !reaches(items, angle, j),
        reaches(items, angle, winner_from(items, angle, start)) || winner_from(
            items,
            angle,
            start,
        ) == items.len() - 1,
    decreases items.len() - start,
{
    if start < items.len() - 1 && !reaches(items, angle, start) {
        lemma_winner_from(items, angle, start + 1);
    }
}

/// The chosen index is a winner, and it is the only one.
pub proof fn lemma_winner_of_is_the_winner(items: Seq<Item>, angle: int, other: int)
    ensures
        is_winner(items, angle, winner_of(items, angle)),
        is_winner(items, angle, other) ==> other == winner_of(items, angle),
{
    if items.len() > 0 {
        lemma_winner_from(items, angle, 0);
    }
}

/// Whatever the rotation, the winner of a list that is not empty is one of
/// its items.
pub proof fn lemma_winner_in_range(items: Seq<Item>, rotation: int)
    requires
        items.len() > 0,
    ensures
        0 <= winner_of(items, pointer_angle(rotation)) < items.len(),
{
    lemma_winner_from(items, pointer_angle(rotation), 0);
}

/// Where some item has weight, the pointer stands inside the winner's slice:
/// at or after its start and before its end. The last item is then never
/// chosen for want of another.
pub proof fn lemma_winner_holds_the_pointer(items: Seq<Item>, angle: int)
    requires
        weight_sum(items) > 0,
        0 <= angle < TURN,
    ensures
        ({
            let winner = winner_of(items, angle);
            &&& 0 <= winner < items.len()
            &&& weight_sum(items.take(winner)) * TURN <= angle * weight_sum(items)
            &&& angle * weight_sum(items) < weight_sum(items.take(winner + 1)) * TURN
        }),
{
    let winner = winner_of(items, angle);
    let sum = weight_sum(items);
    assert(items.len() > 0);
    lemma_winner_from(items, angle, 0);
    if winner > 0 {
        assert(!reaches(items, angle, winner - 1));
        assert(items.take(winner - 1 + 1) == items.take(winner));
    } else {
        assert(items.take(0) =~= Seq::<Item>::empty());
        assert(0 <= angle * sum) by (nonlinear_arith)
            requires
                0 <= angle,
                0 <= sum,
        ;
    }
    if !reaches(items, angle, winner) {
        assert(items.take(items.len() as int) =~= items);
        assert(angle * sum < sum * TURN) by (nonlinear_arith)
            requires
                0 <= angle < TURN,
                sum > 0,
        ;
    }
}

/// Where some item has weight, an item wins wherever the pointer stands
/// inside its slice: each item wins on just the part of the turn that its
/// weight is of the total.
pub proof fn lemma_pointer_in_slice_wins(items: Seq<Item>, angle: int, index: int)
    requires
        weight_sum(items) > 0,
        0 <= angle < TURN,
        0 <= index < items.len(),
        weight_sum(items.take(index)) * TURN <= angle * weight_sum(items),
        angle * weight_sum(items) < weight_sum(items.take(index + 1)) * TURN,
    ensures
        winner_of(items, angle) == index,
{
    let sum = weight_sum(items);
    assert forall|j: int| 0 <= j < index implies !reaches(items, angle, j) by {
        lemma_weight_sum_monotone(items, j + 1, index);
        assert(weight_sum(items.take(j + 1)) * TURN <= weight_sum(items.take(index)) * TURN)
            by (nonlinear_arith)
            requires
                weight_sum(items.take(j + 1)) <= weight_sum(items.take(index)),
        ;
    }
    assert(reaches(items, angle, index));
    assert(is_winner(items, angle, index));
    lemma_winner_of_is_the_winner(items, angle, index);
}

/// The index of the item under the pointer once the wheel has turned by
/// `rotation`, forwards or backwards; 0 for an empty list.
pub fn resolve(rotation: i64, items: &Vec<Item>) -> (winner: usize)
    ensures
        winner == winner_of(items@, pointer_angle(rotation as int)),
        is_winner(items@, pointer_angle(rotation as int), winner as int),
        items.len() > 0 ==> winner < items.len(),
{
    let count = items.len();
    if count == 0 {
        return 0;
    }
    let total = total_weight(items);
    let angle = normalize(rotation);
    proof {
        lemma_winner_of_is_the_winner(items@, angle as int, count - 1);
        crate::weights::lemma_weight_sum_bound(items@);
        assert(items@.take(0) =~= Seq::<Item>::empty());
        assert(count * u32::MAX <= usize::MAX * u32::MAX) by (nonlinear_arith)
            requires
                count <= usize::MAX,
        ;
        assert(angle * total <= TURN * (usize::MAX * u32::MAX)) by (nonlinear_arith)
            requires
                angle < TURN,
                total <= usize::MAX * u32::MAX,
        ;
    }
    let turned: u128 = angle as u128 * total;
    let mut passed: u128 = 0;
    let mut i: usize = 0;
    while i < count
        invariant
            count == items.len(),
            0 <= i <= count,
            count > 0,
            angle == pointer_angle(rotation as int),
            passed == weight_sum(items@.take(i as int)),
            turned == angle * total_weight_of(items@),
            weight_sum(items@) <= usize::MAX * u32::MAX,
            i < count ==> winner_of(items@, angle as int) == winner_from(
                items@,
                angle as int,
                i as int,
            ),
            i == count ==> winner_of(items@, angle as int) == count - 1,
        decreases count - i,
    {
        proof {
            lemma_weight_sum_take(items@, i as int);
            lemma_weight_sum_monotone(items@, i as int + 1, count as int);
            assert(items@.take(count as int) =~= items@);
            assert(weight_sum(items@.take(i as int + 1)) * TURN <= (usize::MAX * u32::MAX)
                * TURN) by (nonlinear_arith)
                requires
                    weight_sum(items@.take(i as int + 1)) <= usize::MAX * u32::MAX,
            ;
        }
        passed = passed + items[i].weight as u128;
        if turned < passed * (TURN as u128) {
            proof {
                lemma_winner_of_is_the_winner(items@, angle as int, i as int);
            }
            return i;
        }
        i = i + 1;
    }
    count - 1
}

} // verus!
