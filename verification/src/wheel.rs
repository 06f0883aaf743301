//! A wheel: its items and settings, the state of its spin, and the buffers
//! that a display keeps beside its items.

use vstd::prelude::*;
use vstd::multiset::Multiset;
use crate::item::{all_positive, Item};
use crate::percentage::rounded_quotient;
use crate::resolver::{is_winner, pointer_angle, resolve, winner_of};
use crate::spin::SpinState;
use crate::weights::{total_weight, total_weight_of};

verus! {

/// What is kept of a wheel from one run to the next.
#[derive(Clone, Debug, PartialEq, Eq)]
pub struct WheelData {
    pub name: String,
    /// The items on the wheel, in the order in which they are drawn and in
    /// which a winner is looked for.
    pub items: Vec<Item>,
    /// Items set aside, which can be brought back.
    pub removed_items: Vec<Item>,
    /// The names of the winners so far, the latest first.
    pub winner_history: Vec<String>,
    /// A winner leaves the wheel.
    pub remove_winner: bool,
    /// After a winner has left, the wheel spins again while more than one
    /// item is on it.
    pub auto_spin: bool,
}

/// What a wheel holds only while it is shown.
#[derive(Debug)]
pub struct WheelState {
    pub spin: SpinState,
    /// The item whose name is being edited.
    pub editing_idx: Option<usize>,
    /// For each item the text of its percentage as the display last wrote
    /// it; empty where the display has to write it anew.
    pub pct_bufs: Vec<String>,
}

/// A wheel.
#[derive(Debug)]
pub struct Wheel {
    pub data: WheelData,
    pub state: WheelState,
}

/// An item's share of the wheel as a fraction: its weight over the total
/// weight, which is at least 1 and at least the weight.
#[derive(Clone, Copy, PartialEq, Eq, Debug, Structural)]
pub struct Probability {
    pub weight: u32,
    pub total: u128,
}

/// Every buffer of `bufs` is empty.
pub open spec fn all_blank(bufs: Seq<String>) -> bool {
    forall|i: int| 0 <= i < bufs.len() ==> (#[trigger] bufs[i])@.len() == 0
}

/// The names of the items that a new wheel starts with.
pub open spec fn starting_names() -> Seq<Seq<char>> {
    seq![
        "gerbil"@,
        "buxley boys"@,
        "gerbilamania"@,
        "gorpen time"@,
        "how to use eframe"@,
        "morpen time"@,
    ]
}

/// `items` with every weight under 1 raised to 1.
pub open spec fn floored(items: Seq<Item>) -> Seq<Item> {
    Seq::new(
        items.len(),
        |i: int|
            Item {
                name: items[i].name,
                weight: if items[i].weight < 1 {
                    1
                } else {
                    items[i].weight
                },
            },
    )
}

/// Raising the weights changes nothing where every item weighs at least 1,
/// and leaves every item with a weight of at least 1.
pub proof fn lemma_floored(items: Seq<Item>)
    ensures
        all_positive(floored(items)),
        all_positive(items) ==> floored(items) == items,
{
    if all_positive(items) {
        assert(floored(items) =~= items);
    }
}

/// Raises every weight under 1 to 1.
pub fn floor_weights(items: &mut Vec<Item>)
    ensures
        final(items)@ == floored(old(items)@),
        all_positive(final(items)@),
{
    let mut i: usize = 0;
    while i < items.len()
        invariant
            i <= items.len(),
            items@.len() == old(items)@.len(),
            forall|j: int| 0 <= j < i ==> items@[j] == floored(old(items)@)[j],
            forall|j: int| i <= j < items@.len() ==> items@[j] == old(items)@[j],
        decreases items.len() - i,
    {
        if items[i].weight < 1 {
            items[i].weight = 1;
        }
        i = i + 1;
    }
    proof {
        assert(items@ =~= floored(old(items)@));
        lemma_floored(old(items)@);
    }
}

/// `count` empty buffers.
pub fn blank_buffers(count: usize) -> (bufs: Vec<String>)
    ensures
        bufs@.len() == count,
        all_blank(bufs@),
{
    let mut bufs: Vec<String> = Vec::new();
    let mut i: usize = 0;
    while i < count
        invariant
            i <= count,
            bufs@.len() == i,
            all_blank(bufs@),
        decreases count - i,
    {
        bufs.push(String::new());
        i = i + 1;
    }
    bufs
}

impl WheelState {
    /// The state of a wheel of `count` items that is shown for the first
    /// time: no spin, no edit, every buffer empty.
    pub fn fresh(count: usize) -> (state: WheelState)
        ensures
            state.spin == SpinState::at_rest(),
            state.editing_idx is None,
            state.pct_bufs@.len() == count,
            all_blank(state.pct_bufs@),
    {
        WheelState { spin: SpinState::new(), editing_idx: None, pct_bufs: blank_buffers(count) }
    }
}

impl WheelData {
    /// Every item, on the wheel or set aside, weighs at least 1.
    pub open spec fn wf(&self) -> bool {
        &&& all_positive(self.items@)
        &&& all_positive(self.removed_items@)
    }

    /// `self` and `other` hold the same name, items, removed items, winners
    /// and settings.
    pub open spec fn same_as(&self, other: &WheelData) -> bool {
        &&& self.name == other.name
        &&& self.items@ == other.items@
        &&& self.removed_items@ == other.removed_items@
        &&& self.winner_history@ == other.winner_history@
        &&& self.remove_winner == other.remove_winner
        &&& self.auto_spin == other.auto_spin
    }

    /// `self` holds what `other` holds, with every weight under 1 raised
    /// to 1.
    pub open spec fn mends(&self, other: &WheelData) -> bool {
        &&& self.name == other.name
        &&& self.items@ == floored(other.items@)
        &&& self.removed_items@ == floored(other.removed_items@)
        &&& self.winner_history@ == other.winner_history@
        &&& self.remove_winner == other.remove_winner
        &&& self.auto_spin == other.auto_spin
    }

    /// Whether every item weighs at least 1.
    pub fn is_sound(&self) -> (sound: bool)
        ensures
            sound == self.wf(),
    {
        every_weight_positive(&self.items) && every_weight_positive(&self.removed_items)
    }
}

/// Whether every item of `items` weighs at least 1.
pub fn every_weight_positive(items: &Vec<Item>) -> (positive: bool)
    ensures
        positive == all_positive(items@),
{
    let mut i: usize = 0;
    while i < items.len()
        invariant
            i <= items.len(),
            forall|j: int| 0 <= j < i ==> (#[trigger] items@[j]).weight >= 1,
        decreases items.len() - i,
    {
        if items[i].weight < 1 {
            return false;
        }
        i = i + 1;
    }
    true
}

impl Wheel {
    /// Every item weighs at least 1, there is one buffer for each item on
    /// the wheel, and the spin's state is sound.
    pub open spec fn wf(&self) -> bool {
        &&& self.data.wf()
        &&& self.state.pct_bufs@.len() == self.data.items@.len()
        &&& self.state.spin.wf()
    }

    /// All the items that the wheel holds, on it or set aside, each as
    /// often as it is held.
    pub open spec fn holdings(&self) -> Multiset<Item> {
        self.data.items@.to_multiset().add(self.data.removed_items@.to_multiset())
    }

    /// The index of the item under the pointer.
    pub open spec fn winner(&self) -> int {
        winner_of(self.data.items@, pointer_angle(self.state.spin.rotation as int))
    }

    /// A wheel named `wheel_name` with the six starting items, each of
    /// weight 1.
    pub fn new(wheel_name: String) -> (wheel: Wheel)
        ensures
            wheel.wf(),
            wheel.data.name == wheel_name,
            wheel.data.items@.len() == 6,
            forall|i: int|
                0 <= i < 6 ==> (#[trigger] wheel.data.items@[i]).name@ == starting_names()[i]
                    && wheel.data.items@[i].weight == 1,
            wheel.data.removed_items@.len() == 0,
            wheel.data.winner_history@.len() == 0,
            !wheel.data.remove_winner,
            !wheel.data.auto_spin,
            wheel.state.spin == SpinState::at_rest(),
            wheel.state.editing_idx is None,
            all_blank(wheel.state.pct_bufs@),
    {
        let mut starting_items: Vec<Item> = Vec::new();
        starting_items.push(Item::new("gerbil".to_string()));
        starting_items.push(Item::new("buxley boys".to_string()));
        starting_items.push(Item::new("gerbilamania".to_string()));
        starting_items.push(Item::new("gorpen time".to_string()));
        starting_items.push(Item::new("how to use eframe".to_string()));
        starting_items.push(Item::new("morpen time".to_string()));
        let number_of_items = starting_items.len();
        Wheel {
            data: WheelData {
                name: wheel_name,
                items: starting_items,
                removed_items: Vec::new(),
                winner_history: Vec::new(),
                remove_winner: false,
                auto_spin: false,
            },
            state: WheelState::fresh(number_of_items),
        }
    }

    /// The wheel that `wheel_data` describes, shown for the first time. A
    /// weight under 1, which no item may have, is raised to 1; data whose
    /// weights are all at least 1 is taken as it is.
    pub fn from_data(wheel_data: WheelData) -> (wheel: Wheel)
        ensures
            wheel.wf(),
            wheel.data.mends(&wheel_data),
            wheel_data.wf() ==> wheel.data.same_as(&wheel_data),
            wheel.state.spin == SpinState::at_rest(),
            wheel.state.editing_idx is None,
            all_blank(wheel.state.pct_bufs@),
    {
        let mut data = wheel_data;
        floor_weights(&mut data.items);
        floor_weights(&mut data.removed_items);
        proof {
            lemma_floored(wheel_data.items@);
            lemma_floored(wheel_data.removed_items@);
        }
        let number_of_items = data.items.len();
        Wheel { state: WheelState::fresh(number_of_items), data }
    }

    /// Brings the buffers to one for each item: those beyond the items are
    /// dropped, and empty ones are added for the items that have none.
    pub fn sync_pct_bufs(&mut self)
        ensures
            final(self).data == old(self).data,
            final(self).state.spin == old(self).state.spin,
            final(self).state.editing_idx == old(self).state.editing_idx,
            final(self).state.pct_bufs@.len() == old(self).data.items@.len(),
            old(self).data.wf() && old(self).state.spin.wf() ==> final(self).wf(),
            forall|i: int|
                0 <= i < old(self).state.pct_bufs@.len() && i < old(self).data.items@.len()
                    ==> final(self).state.pct_bufs@[i] == old(self).state.pct_bufs@[i],
            forall|i: int|
                old(self).state.pct_bufs@.len() <= i < old(self).data.items@.len() ==> (
                #[trigger] final(self).state.pct_bufs@[i])@.len() == 0,
    {
        let number_of_items = self.data.items.len();
        self.state.pct_bufs.truncate(number_of_items);
        let ghost kept = self.state.pct_bufs@.len();
        while self.state.pct_bufs.len() < number_of_items
            invariant
                number_of_items == old(self).data.items@.len(),
                self.data == old(self).data,
                self.state.spin == old(self).state.spin,
                self.state.editing_idx == old(self).state.editing_idx,
                kept <= self.state.pct_bufs@.len() <= number_of_items,
                kept <= old(self).state.pct_bufs@.len(),
                kept == number_of_items || kept == old(self).state.pct_bufs@.len(),
                forall|i: int|
                    0 <= i < kept ==> self.state.pct_bufs@[i] == old(self).state.pct_bufs@[i],
                forall|i: int|
                    kept <= i < self.state.pct_bufs@.len() ==> (
                    #[trigger] self.state.pct_bufs@[i])@.len() == 0,
            decreases number_of_items - self.state.pct_bufs@.len(),
        {
            self.state.pct_bufs.push(String::new());
        }
    }

    /// Whether the wheel is sound.
    pub fn is_sound(&self) -> (sound: bool)
        ensures
            sound == self.wf(),
    {
        self.data.is_sound() && self.state.pct_bufs.len() == self.data.items.len()
            && self.state.spin.is_sound()
    }

    /// The items on the wheel.
    pub fn items(&self) -> (items: &Vec<Item>)
        ensures
            items == &self.data.items,
    {
        &self.data.items
    }

    /// The items set aside.
    pub fn removed_items(&self) -> (items: &Vec<Item>)
        ensures
            items == &self.data.removed_items,
    {
        &self.data.removed_items
    }

    /// The names of the winners so far, the latest first.
    pub fn winner_history(&self) -> (names: &Vec<String>)
        ensures
            names == &self.data.winner_history,
    {
        &self.data.winner_history
    }

    /// How many items are on the wheel.
    pub fn item_count(&self) -> (count: usize)
        ensures
            count == self.data.items@.len(),
    {
        self.data.items.len()
    }

    /// A spin is under way.
    pub fn is_spinning(&self) -> (spinning: bool)
        ensures
            spinning == self.state.spin.is_spinning,
    {
        self.state.spin.is_spinning
    }

    /// A spin may start: none is under way, and there are at least two items
    /// to choose from.
    pub fn can_spin(&self) -> (allowed: bool)
        ensures
            allowed == (!self.state.spin.is_spinning && self.data.items@.len() >= 2),
    {
        !self.state.spin.is_spinning && self.data.items.len() >= 2
    }

    /// How far the wheel has turned since it was thrown, in micro-radians.
    pub fn current_rotation(&self) -> (rotation: i64)
        ensures
            rotation == self.state.spin.rotation,
    {
        self.state.spin.rotation
    }

    /// The total weight of the items, never less than 1.
    pub fn total_weight(&self) -> (total: u128)
        ensures
            total == total_weight_of(self.data.items@),
            total >= 1,
    {
        total_weight(&self.data.items)
    }

    /// The share of the item at `index`: its weight over the total weight.
    /// On a sound wheel it is above 0, and it is never above 1.
    pub fn probability(&self, index: usize) -> (share: Probability)
        requires
            index < self.data.items@.len(),
        ensures
            share.weight == self.data.items@[index as int].weight,
            share.total == total_weight_of(self.data.items@),
            share.total >= 1,
            share.weight <= share.total,
            all_positive(self.data.items@) ==> share.weight >= 1,
    {
        proof {
            crate::weights::lemma_weight_sum_remove(self.data.items@, index as int);
        }
        Probability { weight: self.data.items[index].weight, total: total_weight(&self.data.items) }
    }

    /// The share of the item at `index` in whole percent, rounded to the
    /// nearest, halves upwards.
    pub fn rounded_percent(&self, index: usize) -> (percent: u64)
        requires
            index < self.data.items@.len(),
        ensures
            percent == rounded_quotient(
                100 * self.data.items@[index as int].weight,
                total_weight_of(self.data.items@) as int,
            ),
    {
        let count = self.data.items.len();
        let total = total_weight(&self.data.items);
        let weight = self.data.items[index].weight as u128;
        proof {
            crate::weights::lemma_weight_sum_bound(self.data.items@);
            assert(count * u32::MAX <= usize::MAX * u32::MAX) by (nonlinear_arith)
                requires
                    count <= usize::MAX,
            ;
        }
        let rounded = (200 * weight + total) / (2 * total);
        proof {
            let bound = 100 * weight + 1;
            assert(200 * weight + total <= bound * (2 * total)) by (nonlinear_arith)
                requires
                    bound == 100 * weight + 1,
                    total >= 1,
                    weight >= 0,
            ;
            vstd::arithmetic::div_mod::lemma_div_is_ordered(
                (200 * weight + total) as int,
                bound * (2 * total),
                (2 * total) as int,
            );
            vstd::arithmetic::div_mod::lemma_div_multiples_vanish(bound as int, (2 * total) as int);
            assert(bound * (2 * total) == (2 * total) * bound) by (nonlinear_arith);
        }
        rounded as u64
    }

    /// The index of the item under the pointer; 0 on a wheel without items.
    pub fn get_winner(&self) -> (winner: usize)
        ensures
            winner == self.winner(),
            is_winner(
                self.data.items@,
                pointer_angle(self.state.spin.rotation as int),
                winner as int,
            ),
            self.data.items@.len() > 0 ==> winner < self.data.items@.len(),
    {
        resolve(self.state.spin.rotation, &self.data.items)
    }
}

} // verus!
