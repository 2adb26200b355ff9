//! Press-and-hold repetition.
//!
//! A repeatable action fires once when its key goes down. If the key stays
//! down past the hold delay the action fires again, and then again each time
//! the repeat interval has passed since the last fire, until the key comes
//! up. A ticker polls the state every [`POLL_PERIOD_MS`]; since release is
//! seen at the next poll, repetition stops within one poll period of the
//! key coming up.
//!
//! Times are milliseconds on a clock that never runs backwards.

use vstd::prelude::*;

verus! {

/// How long a key must be held before the first repeat, in milliseconds.
pub const HOLD_DELAY_MS: u64 = 500;

/// The time between two repeats, in milliseconds.
pub const REPEAT_INTERVAL_MS: u64 = 500;

/// The period at which the ticker polls, in milliseconds.
pub const POLL_PERIOD_MS: u64 = 25;

/// The two delays that govern repetition.
#[derive(Clone, Copy, Debug, PartialEq, Eq, Structural)]
pub struct RepeatTiming {
    pub hold_delay_ms: u64,
    pub repeat_interval_ms: u64,
}

impl RepeatTiming {
    /// The timing with the standard hold delay and repeat interval.
    pub fn standard() -> (t: RepeatTiming)
        ensures
            t == (RepeatTiming {
                hold_delay_ms: HOLD_DELAY_MS,
                repeat_interval_ms: REPEAT_INTERVAL_MS,
            }),
    {
        RepeatTiming { hold_delay_ms: HOLD_DELAY_MS, repeat_interval_ms: REPEAT_INTERVAL_MS }
    }
}

/// The time from `since` to `now`, or zero if `now` is not later.
pub open spec fn elapsed(now: u64, since: u64) -> int {
    if now >= since {
        now - since
    } else {
        0
    }
}

/// Computes the time from `since` to `now`, or zero if `now` is not later.
pub fn elapsed_ms(now: u64, since: u64) -> (e: u64)
    ensures
        e == elapsed(now, since),
{
    if now >= since {
        now - since
    } else {
        0
    }
}

/// The phase of one repeatable action.
#[derive(Clone, Copy, Debug, PartialEq, Eq, Structural)]
pub enum RepeatPhase {
    /// The key is up.
    Idle,
    /// The key is down and the action has fired once.
    Active,
    /// The key is down and the action has fired again since.
    Repeating,
}

/// The state of one repeatable action.
#[derive(Clone, Copy, Debug, PartialEq, Eq, Structural)]
pub struct RepeatState {
    pub phase: RepeatPhase,
    /// When the key went down; meaningful while the key is down.
    pub pressed_at: u64,
    /// When the action last fired; meaningful while the key is down.
    pub last_fire: u64,
}

impl RepeatState {
    /// Whether the key is down.
    pub open spec fn active(self) -> bool {
        self.phase != RepeatPhase::Idle
    }

    /// Whether a poll at `now` fires the action: the key is down, the hold
    /// delay has passed since it went down, and the repeat interval has
    /// passed since the last fire.
    pub open spec fn due(self, timing: RepeatTiming, now: u64) -> bool {
        &&& self.active()
        &&& elapsed(now, self.pressed_at) >= timing.hold_delay_ms
        &&& elapsed(now, self.last_fire) >= timing.repeat_interval_ms
    }

    /// The state after the key went down at `now`. A press while the key is
    /// already down changes nothing.
    pub open spec fn after_press(self, now: u64) -> RepeatState {
        if self.active() {
            self
        } else {
            RepeatState { phase: RepeatPhase::Active, pressed_at: now, last_fire: now }
        }
    }

    /// The state after the key came up.
    pub open spec fn after_release(self) -> RepeatState {
        RepeatState { phase: RepeatPhase::Idle, ..self }
    }

    /// The state after a poll at `now`.
    pub open spec fn after_tick(self, timing: RepeatTiming, now: u64) -> RepeatState {
        if self.due(timing, now) {
            RepeatState { phase: RepeatPhase::Repeating, last_fire: now, ..self }
        } else {
            self
        }
    }

    /// The state of an action whose key has not been pressed yet.
    pub open spec fn idle() -> RepeatState {
        RepeatState { phase: RepeatPhase::Idle, pressed_at: 0, last_fire: 0 }
    }

    /// The state of an action whose key is up.
    pub fn new() -> (s: RepeatState)
        ensures
            s == RepeatState::idle(),
    {
        RepeatState { phase: RepeatPhase::Idle, pressed_at: 0, last_fire: 0 }
    }

    /// Whether the key is down.
    pub fn is_active(&self) -> (r: bool)
        ensures
            r == self.active(),
    {
        match self.phase {
            RepeatPhase::Idle => false,
            _ => true,
        }
    }

    /// The key went down at `now`. Returns whether the action fires: it does
    /// exactly when the key was up before.
    pub fn press(&mut self, now: u64) -> (fire: bool)
        ensures
            fire == !old(self).active(),
            *final(self) == old(self).after_press(now),
    {
        if self.is_active() {
            false
        } else {
            self.phase = RepeatPhase::Active;
            self.pressed_at = now;
            self.last_fire = now;
            true
        }
    }

    /// The key came up.
    pub fn release(&mut self)
        ensures
            *final(self) == old(self).after_release(),
    {
        self.phase = RepeatPhase::Idle;
    }

    /// The ticker polls at `now`. Returns whether the action fires again.
    pub fn tick(&mut self, timing: RepeatTiming, now: u64) -> (fire: bool)
        ensures
            fire == old(self).due(timing, now),
            *final(self) == old(self).after_tick(timing, now),
    {
        if self.is_active() && elapsed_ms(now, self.pressed_at) >= timing.hold_delay_ms
            && elapsed_ms(now, self.last_fire) >= timing.repeat_interval_ms {
            self.phase = RepeatPhase::Repeating;
            self.last_fire = now;
            true
        } else {
            false
        }
    }
}

/// The state after polling at each of `polls` in turn.
pub open spec fn after_polls(
    state: RepeatState,
    timing: RepeatTiming,
    polls: Seq<u64>,
) -> RepeatState
    decreases polls.len(),
{
    if polls.len() == 0 {
        state
    } else {
        after_polls(state, timing, polls.drop_last()).after_tick(timing, polls.last())
    }
}

/// How many of the polls at `polls` fire the action.
pub open spec fn fires_during(state: RepeatState, timing: RepeatTiming, polls: Seq<u64>) -> nat
    decreases polls.len(),
{
    if polls.len() == 0 {
        0
    } else {
        let before = after_polls(state, timing, polls.drop_last());
        fires_during(state, timing, polls.drop_last()) + if before.due(timing, polls.last()) {
            1nat
        } else {
            0nat
        }
    }
}

/// A key that goes down while up fires its action at once, and no poll
/// before the hold delay has passed fires it again, however many polls
/// there are.
pub proof fn law_no_repeat_before_hold_delay(
    state: RepeatState,
    timing: RepeatTiming,
    pressed_at: u64,
    polls: Seq<u64>,
)
    requires
        !state.active(),
        forall|i: int| 0 <= i < polls.len() ==> elapsed(#[trigger] polls[i], pressed_at)
            < timing.hold_delay_ms,
    ensures
        state.after_press(pressed_at).active(),
        fires_during(state.after_press(pressed_at), timing, polls) == 0,
        after_polls(state.after_press(pressed_at), timing, polls) == state.after_press(pressed_at),
    decreases polls.len(),
{
    if polls.len() > 0 {
        let init = polls.drop_last();
        law_no_repeat_before_hold_delay(state, timing, pressed_at, init);
    }
}

/// Once the key is up, no poll fires the action, however many polls there
/// are and whenever they come.
pub proof fn law_release_stops_repeats(state: RepeatState, timing: RepeatTiming, polls: Seq<u64>)
    ensures
        fires_during(state.after_release(), timing, polls) == 0,
        after_polls(state.after_release(), timing, polls) == state.after_release(),
    decreases polls.len(),
{
    if polls.len() > 0 {
        law_release_stops_repeats(state, timing, polls.drop_last());
    }
}

/// While the key is held, a poll that fires comes no sooner than the repeat
/// interval after the previous fire and no sooner than the hold delay after
/// the press, and afterwards the time of the last fire is the time of that
/// poll.
pub proof fn law_repeats_are_spaced(state: RepeatState, timing: RepeatTiming, now: u64)
    requires
        state.due(timing, now),
    ensures
        elapsed(now, state.last_fire) >= timing.repeat_interval_ms,
        elapsed(now, state.pressed_at) >= timing.hold_delay_ms,
        state.after_tick(timing, now).last_fire == now,
        state.after_tick(timing, now).phase == RepeatPhase::Repeating,
        state.after_tick(timing, now).pressed_at == state.pressed_at,
{
}

/// While the key is held past the hold delay, a poll fires as soon as the
/// repeat interval has passed since the last fire: with polls one poll
/// period apart, a repeat is late by less than that period.
pub proof fn law_repeat_fires_when_due(state: RepeatState, timing: RepeatTiming, now: u64)
    requires
        state.active(),
        now >= state.pressed_at + timing.hold_delay_ms,
        now >= state.last_fire + timing.repeat_interval_ms,
    ensures
        state.due(timing, now),
{
}

} // verus!
