//! The spin: a wheel thrown at a random speed slows down tick by tick, comes
//! to rest, and after a fixed dwell is done.
//!
//! Angles are in micro-radians, speeds in micro-radians per tick, times in
//! microseconds. The slowing goes by the tick, not by the clock: each tick
//! turns the wheel by its speed and takes a fortieth off the speed.

use vstd::prelude::*;
use rand::Rng;

verus! {

/// The least speed a spin starts with.
pub const MIN_SPIN_VELOCITY: u64 = 500_000;

/// The bound below which every starting speed lies.
pub const MAX_SPIN_VELOCITY: u64 = 800_000;

/// The speed below which the wheel is at rest.
pub const REST_VELOCITY: u64 = 1_000;

/// How long the wheel dwells at rest before the spin is done.
pub const SETTLE_TIME: u64 = 1_000_000;

/// The part of its speed, in thousandths, that the wheel keeps over a tick.
pub const DECAY_PER_MILLE: u64 = 975;

/// No wheel turns further in one spin: forty ticks' worth of the largest
/// starting speed.
pub const MAX_ROTATION: i64 = 32_000_000;

/// Where a spin stands.
#[derive(Clone, Copy, PartialEq, Eq, Debug, Structural)]
pub enum Phase {
    /// No spin is under way.
    Idle,
    /// The wheel turns and slows down.
    Decelerating,
    /// The wheel rests and the dwell runs.
    Settling,
}

/// The state of one wheel's spin.
#[derive(Clone, Copy, PartialEq, Eq, Debug, Structural)]
pub struct SpinState {
    /// How far the wheel has turned since the spin began.
    pub rotation: i64,
    /// How far the wheel turns in the next tick.
    pub velocity: u64,
    /// A spin is under way.
    pub is_spinning: bool,
    /// The wheel has come to rest.
    pub has_stopped: bool,
    /// How long the wheel has rested.
    pub stop_delay: u64,
}

/// `a + b`, or the largest `u64` where the sum is larger.
pub open spec fn capped_sum(a: u64, b: u64) -> u64 {
    if a + b > u64::MAX {
        u64::MAX
    } else {
        (a + b) as u64
    }
}

/// The speed left of `velocity` after one tick.
pub open spec fn decayed(velocity: u64) -> u64 {
    (velocity * DECAY_PER_MILLE / 1000) as u64
}

impl SpinState {
    /// The state of a wheel that has not been spun.
    pub open spec fn at_rest() -> SpinState {
        SpinState { rotation: 0, velocity: 0, is_spinning: false, has_stopped: false, stop_delay: 0 }
    }

    /// The state of a wheel just thrown at `velocity`.
    pub open spec fn thrown(velocity: u64) -> SpinState {
        SpinState { rotation: 0, velocity, is_spinning: true, has_stopped: false, stop_delay: 0 }
    }

    /// The speed is one a spin can have, and the wheel cannot turn further
    /// than one spin allows: each tick spends a fortieth of the speed, so
    /// forty times the speed is all the turning that is left.
    pub open spec fn wf(self) -> bool {
        &&& self.velocity < MAX_SPIN_VELOCITY
        &&& self.rotation + 40 * self.velocity <= MAX_ROTATION
    }

    /// Where the spin stands.
    pub open spec fn phase_of(self) -> Phase {
        if !self.is_spinning {
            Phase::Idle
        } else if !self.has_stopped {
            Phase::Decelerating
        } else {
            Phase::Settling
        }
    }

    /// The dwell ends within the next `dt` microseconds.
    pub open spec fn settles(self, dt: u64) -> bool {
        self.phase_of() == Phase::Settling && capped_sum(self.stop_delay, dt) >= SETTLE_TIME
    }

    /// The state after one tick that took `dt` microseconds. Idle, nothing
    /// changes. While the wheel slows down, it turns by its speed, the speed
    /// decays, and the wheel is at rest once the speed is under the rest
    /// speed. At rest, the dwell grows by `dt`, and the spin is over once it
    /// has lasted the settle time.
    pub open spec fn stepped(self, dt: u64) -> SpinState {
        match self.phase_of() {
            Phase::Idle => self,
            Phase::Decelerating => SpinState {
                rotation: (self.rotation + self.velocity) as i64,
                velocity: decayed(self.velocity),
                has_stopped: decayed(self.velocity) < REST_VELOCITY,
                ..self
            },
            Phase::Settling => SpinState {
                stop_delay: capped_sum(self.stop_delay, dt),
                is_spinning: capped_sum(self.stop_delay, dt) < SETTLE_TIME,
                ..self
            },
        }
    }

    /// The state after `ticks` ticks that took `dt` microseconds each.
    pub open spec fn stepped_times(self, dt: u64, ticks: nat) -> SpinState
        decreases ticks,
    {
        if ticks == 0 {
            self
        } else {
            self.stepped(dt).stepped_times(dt, (ticks - 1) as nat)
        }
    }

    /// The state of a wheel that has not been spun.
    pub fn new() -> (state: SpinState)
        ensures
            state == SpinState::at_rest(),
            state.wf(),
            state.phase_of() == Phase::Idle,
    {
        SpinState { rotation: 0, velocity: 0, is_spinning: false, has_stopped: false, stop_delay: 0 }
    }

    /// The state of a wheel just thrown at `velocity`.
    pub fn start(velocity: u64) -> (state: SpinState)
        requires
            MIN_SPIN_VELOCITY <= velocity < MAX_SPIN_VELOCITY,
        ensures
            state == SpinState::thrown(velocity),
            state.wf(),
            state.phase_of() == Phase::Decelerating,
    {
        SpinState { rotation: 0, velocity, is_spinning: true, has_stopped: false, stop_delay: 0 }
    }

    /// Whether the state is sound.
    pub fn is_sound(&self) -> (sound: bool)
        ensures
            sound == self.wf(),
    {
        self.velocity < MAX_SPIN_VELOCITY && self.rotation <= MAX_ROTATION - 40 * (
            self.velocity as i64)
    }

    /// Where the spin stands.
    pub fn phase(&self) -> (phase: Phase)
        ensures
            phase == self.phase_of(),
    {
        if !self.is_spinning {
            Phase::Idle
        } else if !self.has_stopped {
            Phase::Decelerating
        } else {
            Phase::Settling
        }
    }

    /// Advances the spin by one tick that took `dt` microseconds, and says
    /// whether the dwell ended on this tick.
    pub fn step(&mut self, dt: u64) -> (settled: bool)
        requires
            old(self).wf(),
        ensures
            *final(self) == old(self).stepped(dt),
            settled == old(self).settles(dt),
            final(self).wf(),
    {
        if !self.is_spinning {
            return false;
        }
        if !self.has_stopped {
            proof {
                lemma_decay(self.velocity);
            }
            self.rotation = self.rotation + self.velocity as i64;
            self.velocity = self.velocity * DECAY_PER_MILLE / 1000;
            if self.velocity < REST_VELOCITY {
                self.has_stopped = true;
            }
            false
        } else {
            let rested: u64 = if dt > u64::MAX - self.stop_delay {
                u64::MAX
            } else {
                self.stop_delay + dt
            };
            self.stop_delay = rested;
            if rested >= SETTLE_TIME {
                self.is_spinning = false;
                true
            } else {
                false
            }
        }
    }
}

/// A tick takes at least a fortieth off the speed, and something off any
/// speed but 0.
pub proof fn lemma_decay(velocity: u64)
    requires
        velocity < MAX_SPIN_VELOCITY,
    ensures
        40 * decayed(velocity) <= 39 * velocity,
        velocity > 0 ==> decayed(velocity) < velocity,
        decayed(velocity) == velocity * DECAY_PER_MILLE / 1000,
{
    let kept = velocity * DECAY_PER_MILLE;
    vstd::arithmetic::div_mod::lemma_fundamental_div_mod(kept, 1000);
    vstd::arithmetic::div_mod::lemma_mod_bound(kept, 1000);
}

/// While the wheel slows down, every tick leaves it slower, so that it comes
/// to rest; and however long it turns, it stays within one spin's reach.
pub proof fn lemma_step_slows(state: SpinState, dt: u64)
    requires
        state.wf(),
        state.phase_of() == Phase::Decelerating,
    ensures
        state.stepped(dt).wf(),
        state.stepped(dt).rotation <= MAX_ROTATION,
        state.velocity > 0 ==> state.stepped(dt).velocity < state.velocity,
        state.velocity < REST_VELOCITY ==> state.stepped(dt).phase_of() == Phase::Settling,
{
    lemma_decay(state.velocity);
}

/// A wheel that slows down comes to rest: `ticks` ticks bring it there, and
/// they are no more than its speed and one.
pub proof fn lemma_wheel_comes_to_rest(state: SpinState, dt: u64) -> (ticks: nat)
    requires
        state.wf(),
        state.phase_of() == Phase::Decelerating,
    ensures
        1 <= ticks <= state.velocity + 1,
        state.stepped_times(dt, ticks).phase_of() == Phase::Settling,
        state.stepped_times(dt, ticks).wf(),
    decreases state.velocity,
{
    let next = state.stepped(dt);
    lemma_step_slows(state, dt);
    reveal_with_fuel(SpinState::stepped_times, 2);
    if next.has_stopped {
        1
    } else {
        let more = lemma_wheel_comes_to_rest(next, dt);
        more + 1
    }
}

/// A wheel at rest is done with its spin as long as time passes: `ticks`
/// ticks of `dt` microseconds end the dwell, and they are no more than the
/// microseconds of the settle time.
pub proof fn lemma_dwell_ends(state: SpinState, dt: u64) -> (ticks: nat)
    requires
        state.phase_of() == Phase::Settling,
        dt > 0,
    ensures
        1 <= ticks <= SETTLE_TIME,
        state.stop_delay < SETTLE_TIME ==> ticks <= SETTLE_TIME - state.stop_delay,
        state.stepped_times(dt, ticks).phase_of() == Phase::Idle,
        state.stepped_times(dt, ticks).rotation == state.rotation,
    decreases SETTLE_TIME - state.stop_delay,
{
    let next = state.stepped(dt);
    reveal_with_fuel(SpinState::stepped_times, 2);
    if state.settles(dt) {
        1
    } else {
        let more = lemma_dwell_ends(next, dt);
        more + 1
    }
}

/// A number drawn from `low` up to, not including, `high`, by
/// `rand::Rng::gen_range` on the generator that `rand::thread_rng` hands
/// out: whatever is drawn lies in that range. Nothing is said of which
/// number comes. An empty range is left out, on which `gen_range` panics.
#[verifier::external_body]
fn draw_between(low: u64, high: u64) -> (drawn: u64)
    requires
        low < high,
    ensures
        low <= drawn < high,
{
    rand::thread_rng().gen_range(low..high)
}

/// A starting speed for a spin, drawn at random.
pub fn draw_velocity() -> (velocity: u64)
    ensures
        MIN_SPIN_VELOCITY <= velocity < MAX_SPIN_VELOCITY,
{
    draw_between(MIN_SPIN_VELOCITY, MAX_SPIN_VELOCITY)
}

} // verus!
