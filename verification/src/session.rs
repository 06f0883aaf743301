//! Several wheels side by side, one of them shown, and what of them is kept
//! from one run to the next.

use vstd::prelude::*;
use crate::item::Item;
use crate::text::{decimal, decimal_text};
use crate::wheel::{Wheel, WheelData};

verus! {

/// What is kept of a run: the wheels and which of them was shown.
#[derive(Clone, Debug, PartialEq, Eq)]
pub struct SaveData {
    pub wheels: Vec<WheelData>,
    pub current: usize,
}

/// The wheels of a run.
#[derive(Debug)]
pub struct WheelApp {
    pub wheels: Vec<Wheel>,
    /// The index of the wheel that is shown.
    pub current: usize,
    pub show_history: bool,
    pub show_removed: bool,
    /// Something has changed that is not saved yet.
    pub needs_save: bool,
}

/// The name of the `number`th wheel.
pub open spec fn wheel_label(number: nat) -> Seq<char> {
    "Wheel "@ + decimal(number)
}

/// The index that is shown when a run kept `current` and `count` wheels:
/// `current`, or the last wheel where there are not so many.
pub open spec fn shown_index(current: usize, count: nat) -> int {
    if count == 0 {
        0
    } else if current < count {
        current as int
    } else {
        count - 1
    }
}

/// The name of the `number`th wheel.
pub fn label_wheel(number: u128) -> (name: String)
    ensures
        name@ == wheel_label(number as nat),
{
    let mut name = "Wheel ".to_string();
    let digits = decimal_text(number);
    name.append(digits.as_str());
    name
}

/// A list equal to `items`.
pub fn copy_items(items: &Vec<Item>) -> (copy: Vec<Item>)
    ensures
        copy@ == items@,
{
    let mut copy: Vec<Item> = Vec::new();
    let mut i: usize = 0;
    while i < items.len()
        invariant
            i <= items.len(),
            copy@ == items@.take(i as int),
        decreases items.len() - i,
    {
        copy.push(items[i].duplicate());
        assert(copy@ =~= items@.take(i + 1));
        i = i + 1;
    }
    assert(items@.take(items.len() as int) =~= items@);
    copy
}

/// A list equal to `names`.
pub fn copy_names(names: &Vec<String>) -> (copy: Vec<String>)
    ensures
        copy@ == names@,
{
    let mut copy: Vec<String> = Vec::new();
    let mut i: usize = 0;
    while i < names.len()
        invariant
            i <= names.len(),
            copy@ == names@.take(i as int),
        decreases names.len() - i,
    {
        copy.push(names[i].clone());
        assert(copy@ =~= names@.take(i + 1));
        i = i + 1;
    }
    assert(names@.take(names.len() as int) =~= names@);
    copy
}

impl WheelData {
    /// A copy of this wheel's data.
    pub fn duplicate(&self) -> (copy: WheelData)
        ensures
            copy.same_as(self),
    {
        WheelData {
            name: self.name.clone(),
            items: copy_items(&self.items),
            removed_items: copy_items(&self.removed_items),
            winner_history: copy_names(&self.winner_history),
            remove_winner: self.remove_winner,
            auto_spin: self.auto_spin,
        }
    }
}

impl WheelApp {
    /// There is a wheel to show, and every wheel is sound.
    pub open spec fn wf(&self) -> bool {
        &&& self.current < self.wheels@.len()
        &&& forall|i: int| 0 <= i < self.wheels@.len() ==> (#[trigger] self.wheels@[i]).wf()
    }

    /// The run as it starts from what an earlier run kept. With nothing kept
    /// it starts with one new wheel, named as the first. Else it starts with
    /// the wheels that were kept, each shown for the first time, and shows
    /// the one that was shown, or the last where there are not so many. A
    /// kept weight under 1, which no item may have, is raised to 1, so that
    /// every item of every wheel weighs at least 1. Nothing is folded out
    /// and nothing waits to be saved.
    pub fn load(saved: Option<SaveData>) -> (app: WheelApp)
        ensures
            !app.show_history,
            !app.show_removed,
            !app.needs_save,
            forall|i: int| 0 <= i < app.wheels@.len() ==> (#[trigger] app.wheels@[i]).wf(),
            forall|i: int|
                0 <= i < app.wheels@.len() ==> (#[trigger] app.wheels@[i]).state.spin
                    == crate::spin::SpinState::at_rest() && app.wheels@[i].state.editing_idx
                    is None && crate::wheel::all_blank(app.wheels@[i].state.pct_bufs@),
            saved is None ==> {
                &&& app.wheels@.len() == 1
                &&& app.current == 0
                &&& app.wheels@[0].data.name@ == wheel_label(1)
                &&& app.wheels@[0].data.items@.len() == 6
                &&& forall|i: int|
                    0 <= i < 6 ==> (#[trigger] app.wheels@[0].data.items@[i]).name@
                        == crate::wheel::starting_names()[i] && app.wheels@[0].data.items@[i].weight
                        == 1
                &&& app.wheels@[0].data.removed_items@.len() == 0
                &&& app.wheels@[0].data.winner_history@.len() == 0
                &&& !app.wheels@[0].data.remove_winner
                &&& !app.wheels@[0].data.auto_spin
            },
            saved is Some ==> {
                &&& app.wheels@.len() == saved->0.wheels@.len()
                &&& forall|i: int|
                    0 <= i < app.wheels@.len() ==> (#[trigger] app.wheels@[i]).data.mends(
                        &saved->0.wheels@[i],
                    )
                &&& forall|i: int|
                    0 <= i < app.wheels@.len() && saved->0.wheels@[i].wf() ==> (
                    #[trigger] app.wheels@[i]).data.same_as(&saved->0.wheels@[i])
                &&& app.current == shown_index(saved->0.current, saved->0.wheels@.len())
            },
            app.wheels@.len() > 0 ==> app.wf(),
    {
        match saved {
            Some(save_data) => {
                let count = save_data.wheels.len();
                let current_wheel_index = if count == 0 {
                    0
                } else if save_data.current < count {
                    save_data.current
                } else {
                    count - 1
                };
                let ghost kept = save_data.wheels@;
                let mut loaded_wheels: Vec<Wheel> = Vec::new();
                let mut remaining = save_data.wheels;
                while remaining.len() > 0
                    invariant
                        loaded_wheels@.len() + remaining@.len() == kept.len(),
                        forall|i: int|
                            0 <= i < loaded_wheels@.len() ==> {
                                let wheel = #[trigger] loaded_wheels@[i];
                                &&& wheel.wf()
                                &&& wheel.data.mends(&kept[i])
                                &&& kept[i].wf() ==> wheel.data.same_as(&kept[i])
                                &&& wheel.state.spin == crate::spin::SpinState::at_rest()
                                &&& wheel.state.editing_idx is None
                                &&& crate::wheel::all_blank(wheel.state.pct_bufs@)
                            },
                        forall|i: int|
                            0 <= i < remaining@.len() ==> remaining@[i] == kept[loaded_wheels@.len()
                                + i],
                    decreases remaining@.len(),
                {
                    let wheel_data = remaining.remove(0);
                    loaded_wheels.push(Wheel::from_data(wheel_data));
                }
                WheelApp {
                    wheels: loaded_wheels,
                    current: current_wheel_index,
                    show_history: false,
                    show_removed: false,
                    needs_save: false,
                }
            },
            None => {
                let mut wheels: Vec<Wheel> = Vec::new();
                wheels.push(Wheel::new(label_wheel(1)));
                WheelApp {
                    wheels,
                    current: 0,
                    show_history: false,
                    show_removed: false,
                    needs_save: false,
                }
            },
        }
    }

    /// What is to be kept of the run: a copy of every wheel's data, in
    /// order, and which wheel is shown.
    pub fn save_data(&self) -> (save_data: SaveData)
        ensures
            save_data.current == self.current,
            save_data.wheels@.len() == self.wheels@.len(),
            forall|i: int|
                0 <= i < self.wheels@.len() ==> (#[trigger] save_data.wheels@[i]).same_as(
                    &self.wheels@[i].data,
                ),
    {
        let mut all_wheel_data: Vec<WheelData> = Vec::new();
        let mut i: usize = 0;
        while i < self.wheels.len()
            invariant
                i <= self.wheels.len(),
                all_wheel_data@.len() == i,
                forall|j: int|
                    0 <= j < i ==> (#[trigger] all_wheel_data@[j]).same_as(&self.wheels@[j].data),
            decreases self.wheels.len() - i,
        {
            all_wheel_data.push(self.wheels[i].data.duplicate());
            i = i + 1;
        }
        SaveData { wheels: all_wheel_data, current: self.current }
    }

    /// Whether there is a wheel to show and every wheel is sound.
    pub fn is_sound(&self) -> (sound: bool)
        ensures
            sound == self.wf(),
    {
        if self.current >= self.wheels.len() {
            return false;
        }
        let mut i: usize = 0;
        while i < self.wheels.len()
            invariant
                i <= self.wheels.len(),
                self.current < self.wheels@.len(),
                forall|j: int| 0 <= j < i ==> (#[trigger] self.wheels@[j]).wf(),
            decreases self.wheels.len() - i,
        {
            if !self.wheels[i].is_sound() {
                return false;
            }
            i = i + 1;
        }
        true
    }

    /// How many wheels there are.
    pub fn wheel_count(&self) -> (count: usize)
        ensures
            count == self.wheels@.len(),
    {
        self.wheels.len()
    }

    /// There is a wheel at the index that is shown.
    pub fn has_current(&self) -> (has: bool)
        ensures
            has == (self.current < self.wheels@.len()),
    {
        self.current < self.wheels.len()
    }

    /// The wheel that is shown.
    pub fn current_wheel(&self) -> (wheel: &Wheel)
        requires
            self.current < self.wheels@.len(),
        ensures
            *wheel == self.wheels@[self.current as int],
    {
        &self.wheels[self.current]
    }

    /// Advances the wheel that is shown by one tick that took `dt`
    /// microseconds, and says whether this tick committed a winner. A
    /// committed winner is something to save. The other wheels stand still.
    pub fn tick(&mut self, dt: u64) -> (finalized: bool)
        requires
            old(self).wf(),
        ensures
            final(self).wf(),
            final(self).current == old(self).current,
            final(self).show_history == old(self).show_history,
            final(self).show_removed == old(self).show_removed,
            final(self).needs_save == (old(self).needs_save || finalized),
            final(self).wheels@.len() == old(self).wheels@.len(),
            forall|i: int|
                0 <= i < old(self).wheels@.len() && i != old(self).current
                    ==> final(self).wheels@[i] == old(self).wheels@[i],
            finalized == old(self).wheels@[old(self).current as int].finalizes(dt),
            crate::engine::ticked(
                old(self).wheels@[old(self).current as int],
                final(self).wheels@[old(self).current as int],
                dt,
                final(self).wheels@[old(self).current as int].state.spin.velocity,
            ),
            old(self).wheels@[old(self).current as int].respins(dt)
                ==> crate::spin::MIN_SPIN_VELOCITY <= final(self).wheels@[old(
                self,
            ).current as int].state.spin.velocity < crate::spin::MAX_SPIN_VELOCITY,
    {
        let spin_just_finished = self.wheels[self.current].tick(dt);
        if spin_just_finished {
            self.needs_save = true;
        }
        spin_just_finished
    }

    /// Shows the wheel at `index`.
    pub fn select_wheel(&mut self, index: usize)
        requires
            index < old(self).wheels@.len(),
        ensures
            final(self).current == index,
            final(self).wheels == old(self).wheels,
            final(self).show_history == old(self).show_history,
            final(self).show_removed == old(self).show_removed,
            final(self).needs_save == old(self).needs_save,
    {
        self.current = index;
    }

    /// Adds a new wheel after the others, named by its place in the row,
    /// and shows it. That is something to save.
    pub fn new_wheel(&mut self)
        ensures
            final(self).wheels@.len() == old(self).wheels@.len() + 1,
            final(self).wheels@.drop_last() == old(self).wheels@,
            final(self).current == old(self).wheels@.len(),
            final(self).needs_save,
            final(self).show_history == old(self).show_history,
            final(self).show_removed == old(self).show_removed,
            ({
                let wheel = final(self).wheels@.last();
                &&& wheel.wf()
                &&& wheel.data.name@ == wheel_label(old(self).wheels@.len() + 1)
                &&& wheel.data.items@.len() == 6
                &&& forall|i: int|
                    0 <= i < 6 ==> (#[trigger] wheel.data.items@[i]).name@
                        == crate::wheel::starting_names()[i] && wheel.data.items@[i].weight == 1
                &&& wheel.data.removed_items@.len() == 0
                &&& wheel.data.winner_history@.len() == 0
                &&& !wheel.data.remove_winner
                &&& !wheel.data.auto_spin
                &&& wheel.state.spin == crate::spin::SpinState::at_rest()
                &&& wheel.state.editing_idx is None
                &&& crate::wheel::all_blank(wheel.state.pct_bufs@)
            }),
            (forall|i: int| 0 <= i < old(self).wheels@.len() ==> (#[trigger] old(
                self,
            ).wheels@[i]).wf()) ==> final(self).wf(),
    {
        let number = self.wheels.len() as u128 + 1;
        let new_wheel_name = label_wheel(number);
        self.wheels.push(Wheel::new(new_wheel_name));
        self.current = self.wheels.len() - 1;
        self.needs_save = true;
        assert(self.wheels@.drop_last() =~= old(self).wheels@);
    }

    /// Deletes the wheel that is shown, unless it is the only one, and says
    /// whether it did. The wheel that took its place is shown then, or the
    /// last one where it was the last. That is something to save.
    pub fn delete_wheel(&mut self) -> (deleted: bool)
        requires
            old(self).current < old(self).wheels@.len(),
        ensures
            deleted == (old(self).wheels@.len() > 1),
            !deleted ==> *final(self) == *old(self),
            deleted ==> {
                &&& final(self).wheels@ == old(self).wheels@.remove(old(self).current as int)
                &&& final(self).current == shown_index(
                    old(self).current,
                    final(self).wheels@.len(),
                )
                &&& final(self).needs_save
                &&& final(self).show_history == old(self).show_history
                &&& final(self).show_removed == old(self).show_removed
            },
            old(self).wf() ==> final(self).wf(),
    {
        if self.wheels.len() <= 1 {
            return false;
        }
        self.wheels.remove(self.current);
        if self.current >= self.wheels.len() {
            self.current = self.wheels.len() - 1;
        }
        self.needs_save = true;
        true
    }

    /// Says whether the run is to be saved now, because `something_changed`
    /// or because something was waiting to be saved, and lets nothing wait
    /// any longer.
    pub fn take_save_request(&mut self, something_changed: bool) -> (save: bool)
        ensures
            save == (something_changed || old(self).needs_save),
            !final(self).needs_save,
            final(self).wheels == old(self).wheels,
            final(self).current == old(self).current,
            final(self).show_history == old(self).show_history,
            final(self).show_removed == old(self).show_removed,
    {
        let save = something_changed || self.needs_save;
        self.needs_save = false;
        save
    }
}

} // verus!
