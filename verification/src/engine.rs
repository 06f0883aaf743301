//! Spinning a wheel: the throw, the ticks, and what happens when the wheel
//! has settled on a winner.

use vstd::prelude::*;
use crate::item::all_positive;
use crate::resolver::resolve;
use crate::spin::{draw_velocity, SpinState, MAX_SPIN_VELOCITY, MIN_SPIN_VELOCITY};
use crate::wheel::Wheel;

verus! {

impl Wheel {
    /// A tick of `dt` microseconds commits a winner: the dwell ends on it
    /// and there is an item to win.
    pub open spec fn finalizes(&self, dt: u64) -> bool {
        self.state.spin.settles(dt) && self.data.items@.len() > 0
    }

    /// A tick of `dt` microseconds commits a winner and throws the wheel
    /// again: the winner leaves, the wheel is set to go on, and more than
    /// one item stays behind.
    pub open spec fn respins(&self, dt: u64) -> bool {
        &&& self.finalizes(dt)
        &&& self.data.auto_spin
        &&& self.data.remove_winner
        &&& self.data.items@.len() > 2
    }
}

/// What a tick of `dt` microseconds does to all of a wheel but its spin and
/// its edit. The name and the settings stay. Where the tick commits a
/// winner, the winner's name goes to the front of the history, and where
/// winners leave, the winner moves from the items to the end of the removed
/// items, and its buffer goes. Else nothing changes.
pub open spec fn tick_outcome(pre: Wheel, post: Wheel, dt: u64) -> bool {
    &&& post.data.name == pre.data.name
    &&& post.data.remove_winner == pre.data.remove_winner
    &&& post.data.auto_spin == pre.data.auto_spin
    &&& if pre.finalizes(dt) {
        post.data.winner_history@ == pre.data.winner_history@.insert(
            0,
            pre.data.items@[pre.winner()].name,
        )
    } else {
        post.data.winner_history@ == pre.data.winner_history@
    }
    &&& if pre.finalizes(dt) && pre.data.remove_winner {
        &&& post.data.items@ == pre.data.items@.remove(pre.winner())
        &&& post.data.removed_items@ == pre.data.removed_items@.push(
            pre.data.items@[pre.winner()],
        )
        &&& post.state.pct_bufs@ == pre.state.pct_bufs@.remove(pre.winner())
    } else {
        &&& post.data.items@ == pre.data.items@
        &&& post.data.removed_items@ == pre.data.removed_items@
        &&& post.state.pct_bufs@ == pre.state.pct_bufs@
    }
}

/// What a tick of `dt` microseconds makes of a wheel, where `velocity` is
/// the speed of the throw if the tick throws the wheel again. Without a new
/// throw the spin advances by one step and the edit stays; with one the
/// wheel is thrown at `velocity` and the edit is dropped.
pub open spec fn ticked(pre: Wheel, post: Wheel, dt: u64, velocity: u64) -> bool {
    &&& tick_outcome(pre, post, dt)
    &&& if pre.respins(dt) {
        &&& post.state.spin == SpinState::thrown(velocity)
        &&& post.state.editing_idx is None
    } else {
        &&& post.state.spin == pre.state.spin.stepped(dt)
        &&& post.state.editing_idx == pre.state.editing_idx
    }
}

/// A tick loses no item and doubles none: the winner that leaves the wheel
/// is set aside, so that the wheel holds after the tick what it held before,
/// and as many winners more as the tick committed. Weights of at least 1
/// stay so.
pub proof fn lemma_tick_keeps_the_holdings(pre: Wheel, post: Wheel, dt: u64)
    requires
        tick_outcome(pre, post, dt),
    ensures
        post.holdings() == pre.holdings(),
        post.data.items@.len() + post.data.removed_items@.len() == pre.data.items@.len()
            + pre.data.removed_items@.len(),
        post.data.winner_history@.len() == pre.data.winner_history@.len() + if pre.finalizes(dt) {
            1int
        } else {
            0int
        },
        all_positive(pre.data.items@) ==> all_positive(post.data.items@),
        all_positive(pre.data.items@) && all_positive(pre.data.removed_items@) ==> all_positive(
            post.data.removed_items@,
        ),
{
    broadcast use vstd::seq_lib::group_to_multiset_ensures;
    broadcast use vstd::multiset::group_multiset_axioms;

    if pre.finalizes(dt) {
        crate::resolver::lemma_winner_in_range(
            pre.data.items@,
            pre.state.spin.rotation as int,
        );
        if pre.data.remove_winner {
            let winner = pre.winner();
            let moved = pre.data.items@[winner];
            assert(pre.data.items@.contains(moved));
            assert(post.holdings() =~= pre.holdings());
        }
    }
}

impl Wheel {
    /// Throws the wheel at `velocity`: the rotation starts again from 0 and
    /// any edit of a name is dropped.
    pub fn spin_with(&mut self, velocity: u64)
        requires
            MIN_SPIN_VELOCITY <= velocity < MAX_SPIN_VELOCITY,
        ensures
            final(self).data == old(self).data,
            final(self).state.pct_bufs == old(self).state.pct_bufs,
            final(self).state.spin == SpinState::thrown(velocity),
            final(self).state.editing_idx is None,
            old(self).wf() ==> final(self).wf(),
    {
        self.state.spin = SpinState::start(velocity);
        self.state.editing_idx = None;
    }

    /// Throws the wheel at a speed drawn at random from the starting speeds:
    /// the rotation starts again from 0 and any edit of a name is dropped.
    pub fn spin(&mut self)
        ensures
            final(self).data == old(self).data,
            final(self).state.pct_bufs == old(self).state.pct_bufs,
            final(self).state.spin == SpinState::thrown(final(self).state.spin.velocity),
            MIN_SPIN_VELOCITY <= final(self).state.spin.velocity < MAX_SPIN_VELOCITY,
            final(self).state.editing_idx is None,
            old(self).wf() ==> final(self).wf(),
    {
        let velocity = draw_velocity();
        self.spin_with(velocity);
    }

    /// One tick without a new throw.
    fn advance(&mut self, dt: u64) -> (finalized: bool)
        requires
            old(self).wf(),
        ensures
            final(self).wf(),
            finalized == old(self).finalizes(dt),
            tick_outcome(*old(self), *final(self), dt),
            finalized ==> 0 <= old(self).winner() < old(self).data.items@.len(),
            final(self).state.spin == old(self).state.spin.stepped(dt),
            final(self).state.editing_idx == old(self).state.editing_idx,
    {
        let settled = self.state.spin.step(dt);
        if !settled || self.data.items.len() == 0 {
            return false;
        }
        let winning_index = resolve(self.state.spin.rotation, &self.data.items);
        let winning_name = self.data.items[winning_index].name.clone();
        self.data.winner_history.insert(0, winning_name);
        if self.data.remove_winner {
            let removed_item = self.data.items.remove(winning_index);
            self.data.removed_items.push(removed_item);
            self.state.pct_bufs.remove(winning_index);
        }
        true
    }

    /// Advances the wheel by one tick that took `dt` microseconds, and says
    /// whether this tick committed a winner. `velocity` is the speed at
    /// which the wheel is thrown again, if this tick does so.
    pub fn tick_with(&mut self, dt: u64, velocity: u64) -> (finalized: bool)
        requires
            old(self).wf(),
            MIN_SPIN_VELOCITY <= velocity < MAX_SPIN_VELOCITY,
        ensures
            final(self).wf(),
            finalized == old(self).finalizes(dt),
            ticked(*old(self), *final(self), dt, velocity),
            finalized ==> 0 <= old(self).winner() < old(self).data.items@.len(),
    {
        let finalized = self.advance(dt);
        if finalized && self.data.auto_spin && self.data.remove_winner && self.data.items.len()
            > 1 {
            self.spin_with(velocity);
        }
        finalized
    }

    /// Advances the wheel by one tick that took `dt` microseconds, and says
    /// whether this tick committed a winner. Where the tick throws the wheel
    /// again, the speed is drawn at random from the starting speeds.
    pub fn tick(&mut self, dt: u64) -> (finalized: bool)
        requires
            old(self).wf(),
        ensures
            final(self).wf(),
            finalized == old(self).finalizes(dt),
            ticked(*old(self), *final(self), dt, final(self).state.spin.velocity),
            finalized ==> 0 <= old(self).winner() < old(self).data.items@.len(),
            old(self).respins(dt) ==> MIN_SPIN_VELOCITY <= final(self).state.spin.velocity
                < MAX_SPIN_VELOCITY,
    {
        let finalized = self.advance(dt);
        if finalized && self.data.auto_spin && self.data.remove_winner && self.data.items.len()
            > 1 {
            self.spin();
        }
        finalized
    }
}

} // verus!
