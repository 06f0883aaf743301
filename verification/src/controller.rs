//! The commands by which a wheel is edited between ticks.
//!
//! Every command that changes which items are on the wheel, or what they
//! weigh, leaves one empty buffer for each item, so that the display writes
//! every percentage anew.

use vstd::prelude::*;
use vstd::multiset::Multiset;
use crate::item::{all_positive, Item};
use crate::percentage::{set_share, with_typed_share, TypedShare};
use crate::text::{trim, trimmed};
use crate::weights::{lemma_weight_sum_bound, total_weight, total_weight_of};
use crate::wheel::{all_blank, blank_buffers, Wheel};

verus! {

/// The weight with which an item joins `items`: the average weight of the
/// items, rounded down and at least 1; 1 where there are none.
pub open spec fn joining_weight(items: Seq<Item>) -> int {
    if items.len() == 0 || total_weight_of(items) / items.len() < 1 {
        1
    } else {
        (total_weight_of(items) / items.len()) as int
    }
}

/// The edit that is left of `editing` when the item at `index` goes: none,
/// where that item was being edited.
pub open spec fn edit_after_removal(editing: Option<usize>, index: usize) -> Option<usize> {
    if editing == Some(index) {
        None
    } else {
        editing
    }
}

/// The weight with which an item joins `items`.
pub fn average_weight(items: &Vec<Item>) -> (weight: u32)
    ensures
        weight == joining_weight(items@),
        weight >= 1,
{
    let count = items.len();
    if count == 0 {
        return 1;
    }
    let total = total_weight(items);
    let average = total / count as u128;
    proof {
        lemma_weight_sum_bound(items@);
        vstd::arithmetic::div_mod::lemma_div_is_ordered(
            total as int,
            u32::MAX * count,
            count as int,
        );
        vstd::arithmetic::div_mod::lemma_div_multiples_vanish(u32::MAX as int, count as int);
        assert(u32::MAX * count == count * u32::MAX) by (nonlinear_arith);
    }
    if average < 1 {
        1
    } else {
        average as u32
    }
}

impl Wheel {
    /// The name, the settings and the spin of `self` are those of `pre`.
    pub open spec fn keeps_settings_of(&self, pre: &Wheel) -> bool {
        &&& self.data.name == pre.data.name
        &&& self.data.remove_winner == pre.data.remove_winner
        &&& self.data.auto_spin == pre.data.auto_spin
        &&& self.state.spin == pre.state.spin
    }

    /// Puts a new item named `name`, without the white space around it, at
    /// the end of the wheel, with the average weight of the items there, and
    /// says whether it did: a name of white space alone adds nothing.
    pub fn add_item(&mut self, name: &str) -> (added: bool)
        ensures
            added == (trimmed(name@).len() > 0),
            !added ==> *final(self) == *old(self),
            added ==> {
                &&& final(self).data.items@.len() == old(self).data.items@.len() + 1
                &&& final(self).data.items@.drop_last() == old(self).data.items@
                &&& final(self).data.items@.last().name@ == trimmed(name@)
                &&& final(self).data.items@.last().weight == joining_weight(old(self).data.items@)
                &&& final(self).data.removed_items@ == old(self).data.removed_items@
                &&& final(self).data.winner_history@ == old(self).data.winner_history@
                &&& final(self).state.editing_idx == old(self).state.editing_idx
                &&& final(self).keeps_settings_of(old(self))
                &&& final(self).state.pct_bufs@.len() == final(self).data.items@.len()
                &&& all_blank(final(self).state.pct_bufs@)
            },
            all_positive(old(self).data.items@) ==> all_positive(final(self).data.items@),
            old(self).wf() ==> final(self).wf(),
    {
        let new_item_name = trim(name);
        if new_item_name.as_str().unicode_len() == 0 {
            return false;
        }
        let weight = average_weight(&self.data.items);
        self.data.items.push(Item { name: new_item_name, weight });
        self.state.pct_bufs = blank_buffers(self.data.items.len());
        assert(self.data.items@.drop_last() =~= old(self).data.items@);
        true
    }

    /// Takes the item at `index` off the wheel for good.
    pub fn remove_permanently(&mut self, index: usize)
        requires
            index < old(self).data.items@.len(),
        ensures
            final(self).data.items@ == old(self).data.items@.remove(index as int),
            final(self).data.removed_items@ == old(self).data.removed_items@,
            final(self).data.winner_history@ == old(self).data.winner_history@,
            final(self).state.editing_idx == edit_after_removal(
                old(self).state.editing_idx,
                index,
            ),
            final(self).keeps_settings_of(old(self)),
            final(self).state.pct_bufs@.len() == final(self).data.items@.len(),
            all_blank(final(self).state.pct_bufs@),
            all_positive(old(self).data.items@) ==> all_positive(final(self).data.items@),
            old(self).wf() ==> final(self).wf(),
    {
        if self.state.editing_idx == Some(index) {
            self.state.editing_idx = None;
        }
        self.data.items.remove(index);
        self.state.pct_bufs = blank_buffers(self.data.items.len());
    }

    /// Sets the item at `index` aside: it leaves the wheel and joins the
    /// removed items at their end.
    pub fn remove_temporarily(&mut self, index: usize)
        requires
            index < old(self).data.items@.len(),
        ensures
            final(self).data.items@ == old(self).data.items@.remove(index as int),
            final(self).data.removed_items@ == old(self).data.removed_items@.push(
                old(self).data.items@[index as int],
            ),
            final(self).holdings() == old(self).holdings(),
            final(self).data.winner_history@ == old(self).data.winner_history@,
            final(self).state.editing_idx == edit_after_removal(
                old(self).state.editing_idx,
                index,
            ),
            final(self).keeps_settings_of(old(self)),
            final(self).state.pct_bufs@.len() == final(self).data.items@.len(),
            all_blank(final(self).state.pct_bufs@),
            all_positive(old(self).data.items@) ==> all_positive(final(self).data.items@),
            old(self).wf() ==> final(self).wf(),
    {
        if self.state.editing_idx == Some(index) {
            self.state.editing_idx = None;
        }
        let moved_item = self.data.items.remove(index);
        self.data.removed_items.push(moved_item);
        self.state.pct_bufs = blank_buffers(self.data.items.len());
        proof {
            broadcast use vstd::seq_lib::group_to_multiset_ensures;
            broadcast use vstd::multiset::group_multiset_axioms;

            assert(old(self).data.items@.contains(moved_item));
            assert(self.holdings() =~= old(self).holdings());
        }
    }

    /// Brings every removed item back to the end of the wheel, in the order
    /// in which they were set aside.
    pub fn restore_all_removed(&mut self)
        ensures
            final(self).data.items@ == old(self).data.items@ + old(self).data.removed_items@,
            final(self).data.removed_items@.len() == 0,
            final(self).holdings() == old(self).holdings(),
            final(self).data.winner_history@ == old(self).data.winner_history@,
            final(self).state.editing_idx == old(self).state.editing_idx,
            final(self).keeps_settings_of(old(self)),
            final(self).state.pct_bufs@.len() == final(self).data.items@.len(),
            all_blank(final(self).state.pct_bufs@),
            all_positive(old(self).data.items@) && all_positive(old(self).data.removed_items@)
                ==> all_positive(final(self).data.items@),
            old(self).wf() ==> final(self).wf(),
    {
        self.data.items.append(&mut self.data.removed_items);
        self.state.pct_bufs = blank_buffers(self.data.items.len());
        proof {
            broadcast use vstd::multiset::group_multiset_axioms;

            vstd::seq_lib::lemma_multiset_commutative(
                old(self).data.items@,
                old(self).data.removed_items@,
            );
            assert(self.data.removed_items@ =~= Seq::<Item>::empty());
            assert(self.data.removed_items@.to_multiset() =~= Multiset::<Item>::empty()) by {
                broadcast use vstd::seq_lib::group_to_multiset_ensures;

            }
            assert(self.holdings() =~= old(self).holdings());
        }
    }

    /// Gives the item at `index` the name `new_name`, without the white space
    /// around it, and says whether it did: a name of white space alone
    /// changes nothing.
    pub fn rename(&mut self, index: usize, new_name: &str) -> (renamed: bool)
        requires
            index < old(self).data.items@.len(),
        ensures
            renamed == (trimmed(new_name@).len() > 0),
            !renamed ==> *final(self) == *old(self),
            renamed ==> {
                &&& final(self).data.items@.len() == old(self).data.items@.len()
                &&& final(self).data.items@[index as int].name@ == trimmed(new_name@)
                &&& final(self).data.items@[index as int].weight == old(
                    self,
                ).data.items@[index as int].weight
                &&& forall|j: int|
                    0 <= j < old(self).data.items@.len() && j != index
                        ==> final(self).data.items@[j] == old(self).data.items@[j]
                &&& final(self).data.removed_items@ == old(self).data.removed_items@
                &&& final(self).data.winner_history@ == old(self).data.winner_history@
                &&& final(self).state.editing_idx == old(self).state.editing_idx
                &&& final(self).state.pct_bufs@ == old(self).state.pct_bufs@
                &&& final(self).keeps_settings_of(old(self))
            },
            all_positive(old(self).data.items@) ==> all_positive(final(self).data.items@),
            old(self).wf() ==> final(self).wf(),
    {
        let name = trim(new_name);
        if name.as_str().unicode_len() == 0 {
            return false;
        }
        self.data.items[index].name = name;
        true
    }

    /// Starts the edit of the name of the item at `index`, and hands out the
    /// name as it stands.
    pub fn begin_edit(&mut self, index: usize) -> (name: String)
        requires
            index < old(self).data.items@.len(),
        ensures
            name == old(self).data.items@[index as int].name,
            final(self).state.editing_idx == Some(index),
            final(self).data == old(self).data,
            final(self).state.spin == old(self).state.spin,
            final(self).state.pct_bufs == old(self).state.pct_bufs,
    {
        self.state.editing_idx = Some(index);
        self.data.items[index].name.clone()
    }

    /// Ends the edit of a name with `text` as the new name, and says whether
    /// the name has changed: the item that was being edited is renamed as
    /// by `rename`, and no item is being edited any longer. Without an edit
    /// under way nothing changes.
    pub fn commit_edit(&mut self, text: &str) -> (renamed: bool)
        requires
            old(self).state.editing_idx is Some ==> old(self).state.editing_idx->0 < old(
                self,
            ).data.items@.len(),
        ensures
            renamed == (old(self).state.editing_idx is Some && trimmed(text@).len() > 0),
            final(self).state.editing_idx is None,
            final(self).state.pct_bufs@ == old(self).state.pct_bufs@,
            final(self).data.removed_items@ == old(self).data.removed_items@,
            final(self).data.winner_history@ == old(self).data.winner_history@,
            final(self).keeps_settings_of(old(self)),
            !renamed ==> final(self).data.items@ == old(self).data.items@,
            renamed ==> {
                let index = old(self).state.editing_idx->0 as int;
                &&& final(self).data.items@.len() == old(self).data.items@.len()
                &&& final(self).data.items@[index].name@ == trimmed(text@)
                &&& final(self).data.items@[index].weight == old(self).data.items@[index].weight
                &&& forall|j: int|
                    0 <= j < old(self).data.items@.len() && j != index
                        ==> final(self).data.items@[j] == old(self).data.items@[j]
            },
            all_positive(old(self).data.items@) ==> all_positive(final(self).data.items@),
            old(self).wf() ==> final(self).wf(),
    {
        let renamed = match self.state.editing_idx {
            Some(editing_index) => self.rename(editing_index, text),
            None => false,
        };
        self.state.editing_idx = None;
        renamed
    }

    /// Takes every item off the wheel and forgets its winners. The removed
    /// items stay where they are.
    pub fn clear_all(&mut self)
        ensures
            final(self).data.items@.len() == 0,
            final(self).data.winner_history@.len() == 0,
            final(self).data.removed_items@ == old(self).data.removed_items@,
            final(self).state.pct_bufs@.len() == 0,
            final(self).state.editing_idx is None,
            final(self).keeps_settings_of(old(self)),
            old(self).wf() ==> final(self).wf(),
    {
        self.data.items.clear();
        self.data.winner_history.clear();
        self.state.pct_bufs.clear();
        self.state.editing_idx = None;
    }

    /// Forgets the winners so far.
    pub fn clear_history(&mut self)
        ensures
            final(self).data.winner_history@.len() == 0,
            final(self).data.items@ == old(self).data.items@,
            final(self).data.removed_items@ == old(self).data.removed_items@,
            final(self).state == old(self).state,
            final(self).keeps_settings_of(old(self)),
    {
        self.data.winner_history.clear();
    }

    /// Sets whether a winner leaves the wheel.
    pub fn set_remove_winner(&mut self, remove_winner: bool)
        ensures
            final(self).data.remove_winner == remove_winner,
            final(self).data.name == old(self).data.name,
            final(self).data.items == old(self).data.items,
            final(self).data.removed_items == old(self).data.removed_items,
            final(self).data.winner_history == old(self).data.winner_history,
            final(self).data.auto_spin == old(self).data.auto_spin,
            final(self).state == old(self).state,
    {
        self.data.remove_winner = remove_winner;
    }

    /// Sets whether the wheel spins again after a winner has left.
    pub fn set_auto_spin(&mut self, auto_spin: bool)
        ensures
            final(self).data.auto_spin == auto_spin,
            final(self).data.name == old(self).data.name,
            final(self).data.items == old(self).data.items,
            final(self).data.removed_items == old(self).data.removed_items,
            final(self).data.winner_history == old(self).data.winner_history,
            final(self).data.remove_winner == old(self).data.remove_winner,
            final(self).state == old(self).state,
    {
        self.data.auto_spin = auto_spin;
    }

    /// Enters `typed` as the percentage of the item at `index`, and says
    /// whether the item's weight was set. A share sets the weight to what
    /// the share asks for; a number without a value sets it to 1; text that
    /// is no number changes nothing and stays in its buffer.
    pub fn apply_percentage(&mut self, index: usize, typed: TypedShare) -> (applied: bool)
        requires
            index < old(self).data.items@.len(),
        ensures
            applied == !(typed is Unreadable),
            !applied ==> *final(self) == *old(self),
            applied ==> {
                &&& final(self).data.items@ == with_typed_share(
                    old(self).data.items@,
                    index as int,
                    typed,
                )
                &&& final(self).data.items@[index as int].weight >= 1
                &&& final(self).data.removed_items@ == old(self).data.removed_items@
                &&& final(self).data.winner_history@ == old(self).data.winner_history@
                &&& final(self).state.editing_idx == old(self).state.editing_idx
                &&& final(self).keeps_settings_of(old(self))
                &&& final(self).state.pct_bufs@.len() == final(self).data.items@.len()
                &&& all_blank(final(self).state.pct_bufs@)
            },
            all_positive(old(self).data.items@) ==> all_positive(final(self).data.items@),
            old(self).wf() ==> final(self).wf(),
    {
        match typed {
            TypedShare::Unreadable => {
                return false;
            },
            TypedShare::NotANumber => {
                self.data.items[index].weight = 1;
            },
            TypedShare::Share(requested) => {
                set_share(&mut self.data.items, index, requested);
            },
        }
        self.state.pct_bufs = blank_buffers(self.data.items.len());
        assert(self.data.items@ =~= with_typed_share(old(self).data.items@, index as int, typed));
        true
    }
}

} // verus!
