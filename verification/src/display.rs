//! What a display shows beside each item: its share of the wheel in whole
//! percent, as text that can be edited.

use vstd::prelude::*;
use crate::item::Item;
use crate::percentage::rounded_quotient;
use crate::text::{decimal, decimal_text};
use crate::weights::total_weight_of;
use crate::wheel::Wheel;

verus! {

/// The text shown for the item at `index`: its share of the total weight in
/// whole percent, rounded to the nearest, halves upwards.
pub open spec fn percent_text(items: Seq<Item>, index: int) -> Seq<char> {
    decimal(rounded_quotient(100 * items[index].weight, total_weight_of(items) as int) as nat)
}

impl Wheel {
    /// Writes the percentage of the item at `index` into its buffer, over
    /// whatever stands there.
    pub fn rewrite_pct_buf(&mut self, index: usize)
        requires
            index < old(self).data.items@.len(),
            index < old(self).state.pct_bufs@.len(),
        ensures
            final(self).data == old(self).data,
            final(self).state.spin == old(self).state.spin,
            final(self).state.editing_idx == old(self).state.editing_idx,
            final(self).state.pct_bufs@.len() == old(self).state.pct_bufs@.len(),
            final(self).state.pct_bufs@[index as int]@ == percent_text(
                old(self).data.items@,
                index as int,
            ),
            forall|j: int|
                0 <= j < old(self).state.pct_bufs@.len() && j != index
                    ==> final(self).state.pct_bufs@[j] == old(self).state.pct_bufs@[j],
    {
        let percent = self.rounded_percent(index);
        self.state.pct_bufs[index] = decimal_text(percent as u128);
    }

    /// Writes into every empty buffer the percentage of its item, and leaves
    /// the buffers that hold text as they are.
    pub fn fill_pct_bufs(&mut self)
        requires
            old(self).wf(),
        ensures
            final(self).wf(),
            final(self).data == old(self).data,
            final(self).state.spin == old(self).state.spin,
            final(self).state.editing_idx == old(self).state.editing_idx,
            final(self).state.pct_bufs@.len() == old(self).state.pct_bufs@.len(),
            forall|i: int|
                0 <= i < old(self).state.pct_bufs@.len() ==> (
                #[trigger] final(self).state.pct_bufs@[i])@ == if old(
                    self,
                ).state.pct_bufs@[i]@.len() == 0 {
                    percent_text(old(self).data.items@, i)
                } else {
                    old(self).state.pct_bufs@[i]@
                },
    {
        let count = self.data.items.len();
        let mut i: usize = 0;
        while i < count
            invariant
                i <= count,
                count == old(self).data.items@.len(),
                self.data == old(self).data,
                self.state.spin == old(self).state.spin,
                self.state.editing_idx == old(self).state.editing_idx,
                self.state.pct_bufs@.len() == count,
                old(self).state.pct_bufs@.len() == count,
                forall|j: int|
                    0 <= j < i ==> (#[trigger] self.state.pct_bufs@[j])@ == if old(
                        self,
                    ).state.pct_bufs@[j]@.len() == 0 {
                        percent_text(old(self).data.items@, j)
                    } else {
                        old(self).state.pct_bufs@[j]@
                    },
                forall|j: int|
                    i <= j < count ==> self.state.pct_bufs@[j] == old(self).state.pct_bufs@[j],
            decreases count - i,
        {
            if self.state.pct_bufs[i].as_str().unicode_len() == 0 {
                self.rewrite_pct_buf(i);
            }
            i = i + 1;
        }
    }
}

} // verus!
