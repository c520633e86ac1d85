//! The human-visible status indicator (a two-state LED) and its toggle.
//!
//! The indicator is the one resource every execution context may touch, so it
//! is also the resource the locking discipline in [`crate::lock`] guards.

use vstd::prelude::*;

verus! {

/// The two display states of the status LED.
#[derive(Clone, Copy, Debug, PartialEq, Eq, Structural)]
pub enum State {
    LedOn,
    LedOff,
}

/// The toggled value of an indicator state.
pub open spec fn cycled(s: State) -> State {
    match s {
        State::LedOn => State::LedOff,
        State::LedOff => State::LedOn,
    }
}

impl State {
    /// Advance the indicator to the other display state (the heartbeat step).
    pub fn cycle(&mut self)
        ensures
            *final(self) == cycled(*old(self)),
    {
        *self = match *self {
            State::LedOn => State::LedOff,
            State::LedOff => State::LedOn,
        };
    }
}

} // verus!
