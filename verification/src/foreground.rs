//! The foreground control loop's decision logic.
//!
//! Two usage patterns. *Polled*: every pass drives the LED line for the
//! current indicator state and a pressed button advances the state
//! ([`loop_step`]); a fixed display sequence cycles through the operating
//! states with explicit on-exit and on-enter mode actions at every edge
//! ([`SequenceDriver`]), advanced by an edge-detected input
//! ([`EdgeDetector`]). *Interrupt-driven idle*: issue one single-shot
//! request, block on the low-power wait until the result handler has run,
//! then pause for a fixed inter-sample delay ([`SingleShotPacer`]).
//!
//! The pin reads and writes, the waits and the delays are capabilities of
//! the surrounding program; this module decides what to do next.

use vstd::prelude::*;

use crate::indicator::{cycled, State};
use crate::mode::ModeTag;

verus! {

/// The pin level that drives the LED for an indicator state; the LED is
/// wired active-low, so `LedOn` means a low line.
pub fn led_level_high(s: State) -> (high: bool)
    ensures
        high == (s == State::LedOff),
{
    match s {
        State::LedOn => false,
        State::LedOff => true,
    }
}

/// One pass of the polled foreground loop: report the LED line level for the
/// current state, then advance the state when the (active-low) button is
/// pressed. The caller drives the pin and waits its poll delay.
pub fn loop_step(state: &mut State, button_low: bool) -> (level_high: bool)
    ensures
        level_high == (*old(state) == State::LedOff),
        *final(state) == (if button_low {
            cycled(*old(state))
        } else {
            *old(state)
        }),
{
    let high = led_level_high(*state);
    if button_low {
        state.cycle();
    }
    high
}

/// Detects the pressed edge of an active-low input: fires exactly when the
/// sampled level goes from released (high) to pressed (low), so holding the
/// button yields one event, not one per poll.
pub struct EdgeDetector {
    pub last_low: bool,
}

impl EdgeDetector {
    /// A detector that has last seen the input released.
    pub fn new() -> (d: Self)
        ensures
            !d.last_low,
    {
        EdgeDetector { last_low: false }
    }

    /// Feed one sample; fires on the released-to-pressed transition.
    pub fn sample(&mut self, level_low: bool) -> (fired: bool)
        ensures
            fired == (!old(self).last_low && level_low),
            final(self).last_low == level_low,
    {
        let fired = !self.last_low && level_low;
        self.last_low = level_low;
        fired
    }
}

/// The fixed display sequence of the polled pattern.
#[derive(Clone, Copy, Debug, PartialEq, Eq, Structural)]
pub enum DisplayState {
    Welcome,
    RangeContinuous,
    RangeSingle,
    AmbientContinuous,
    AmbientSingle,
    End,
}

/// The successor in the fixed, looping display sequence.
pub open spec fn next_display(d: DisplayState) -> DisplayState {
    match d {
        DisplayState::Welcome => DisplayState::RangeContinuous,
        DisplayState::RangeContinuous => DisplayState::RangeSingle,
        DisplayState::RangeSingle => DisplayState::AmbientContinuous,
        DisplayState::AmbientContinuous => DisplayState::AmbientSingle,
        DisplayState::AmbientSingle => DisplayState::End,
        DisplayState::End => DisplayState::Welcome,
    }
}

/// The sensor mode a display state keeps active; `None` for the two
/// bookend states.
pub open spec fn mode_of_display(d: DisplayState) -> Option<ModeTag> {
    match d {
        DisplayState::Welcome => None,
        DisplayState::RangeContinuous => Some(ModeTag::RangeContinuous),
        DisplayState::RangeSingle => Some(ModeTag::RangeSingle),
        DisplayState::AmbientContinuous => Some(ModeTag::AmbientContinuous),
        DisplayState::AmbientSingle => Some(ModeTag::AmbientSingle),
        DisplayState::End => None,
    }
}

/// Walks the display sequence, handing the caller the mode to stop and the
/// mode to start at every edge.
pub struct SequenceDriver {
    pub current: DisplayState,
}

impl SequenceDriver {
    /// A driver at the start of the sequence.
    pub fn new() -> (d: Self)
        ensures
            d.current == DisplayState::Welcome,
    {
        SequenceDriver { current: DisplayState::Welcome }
    }

    /// Take the edge to the next display state. Returns the on-exit action
    /// (the mode of the state being left, to stop) and the on-enter action
    /// (the mode of the state being entered, to start); `None` where the
    /// state keeps no mode active.
    pub fn advance(&mut self) -> (acts: (Option<ModeTag>, Option<ModeTag>))
        ensures
            final(self).current == next_display(old(self).current),
            acts.0 == mode_of_display(old(self).current),
            acts.1 == mode_of_display(next_display(old(self).current)),
    {
        let stop = match self.current {
            DisplayState::Welcome => None,
            DisplayState::RangeContinuous => Some(ModeTag::RangeContinuous),
            DisplayState::RangeSingle => Some(ModeTag::RangeSingle),
            DisplayState::AmbientContinuous => Some(ModeTag::AmbientContinuous),
            DisplayState::AmbientSingle => Some(ModeTag::AmbientSingle),
            DisplayState::End => None,
        };
        self.current = match self.current {
            DisplayState::Welcome => DisplayState::RangeContinuous,
            DisplayState::RangeContinuous => DisplayState::RangeSingle,
            DisplayState::RangeSingle => DisplayState::AmbientContinuous,
            DisplayState::AmbientContinuous => DisplayState::AmbientSingle,
            DisplayState::AmbientSingle => DisplayState::End,
            DisplayState::End => DisplayState::Welcome,
        };
        let start = match self.current {
            DisplayState::Welcome => None,
            DisplayState::RangeContinuous => Some(ModeTag::RangeContinuous),
            DisplayState::RangeSingle => Some(ModeTag::RangeSingle),
            DisplayState::AmbientContinuous => Some(ModeTag::AmbientContinuous),
            DisplayState::AmbientSingle => Some(ModeTag::AmbientSingle),
            DisplayState::End => None,
        };
        (stop, start)
    }
}

/// Phases of the interrupt-driven idle pattern.
#[derive(Clone, Copy, Debug, PartialEq, Eq, Structural)]
pub enum PacerPhase {
    /// A single-shot request should be issued next.
    Issue,
    /// The request is out; block on the low-power wait until the result
    /// interrupt has been handled.
    AwaitResult,
    /// The result arrived; observe the fixed inter-sample delay.
    Cooldown,
}

/// What the foreground loop should do next in the interrupt-driven idle
/// pattern.
#[derive(Clone, Copy, Debug, PartialEq, Eq, Structural)]
pub enum PacerAction {
    /// Lock the handle, start a single-shot measurement, unlock.
    StartSingleShot,
    /// Block on the low-power wait primitive until an interrupt fires.
    WaitForInterrupt,
    /// Busy-delay for the given number of milliseconds.
    DelayMs(u32),
}

/// What the surrounding program reports back to the pacer.
#[derive(Clone, Copy, Debug, PartialEq, Eq, Structural)]
pub enum PacerEvent {
    /// The single-shot request was issued.
    Issued,
    /// The result interrupt fired and its handler completed.
    ResultHandled,
    /// The inter-sample delay elapsed.
    CooldownDone,
}

/// The phase each pacer event belongs to; an event reported in any other
/// phase is out of order and must not move the pacer.
pub open spec fn pacer_event_phase(ev: PacerEvent) -> PacerPhase {
    match ev {
        PacerEvent::Issued => PacerPhase::Issue,
        PacerEvent::ResultHandled => PacerPhase::AwaitResult,
        PacerEvent::CooldownDone => PacerPhase::Cooldown,
    }
}

/// The phase after an in-order event.
pub open spec fn pacer_next_phase(p: PacerPhase) -> PacerPhase {
    match p {
        PacerPhase::Issue => PacerPhase::AwaitResult,
        PacerPhase::AwaitResult => PacerPhase::Cooldown,
        PacerPhase::Cooldown => PacerPhase::Issue,
    }
}

/// Drives the interrupt-driven idle pattern: issue a request, wait for the
/// handler, delay, repeat.
pub struct SingleShotPacer {
    pub phase: PacerPhase,
    pub inter_sample_ms: u32,
}

impl SingleShotPacer {
    /// A pacer about to issue its first request.
    pub fn new(inter_sample_ms: u32) -> (p: Self)
        ensures
            p.phase == PacerPhase::Issue,
            p.inter_sample_ms == inter_sample_ms,
    {
        SingleShotPacer { phase: PacerPhase::Issue, inter_sample_ms }
    }

    /// What the loop should do in the current phase.
    pub fn next_action(&self) -> (a: PacerAction)
        ensures
            a == (match self.phase {
                PacerPhase::Issue => PacerAction::StartSingleShot,
                PacerPhase::AwaitResult => PacerAction::WaitForInterrupt,
                PacerPhase::Cooldown => PacerAction::DelayMs(self.inter_sample_ms),
            }),
    {
        match self.phase {
            PacerPhase::Issue => PacerAction::StartSingleShot,
            PacerPhase::AwaitResult => PacerAction::WaitForInterrupt,
            PacerPhase::Cooldown => PacerAction::DelayMs(self.inter_sample_ms),
        }
    }

    /// Report a completed action. An event matching the current phase
    /// advances the pacer and is accepted; an out-of-order event is refused
    /// and changes nothing.
    pub fn on_event(&mut self, ev: PacerEvent) -> (accepted: bool)
        ensures
            accepted == (pacer_event_phase(ev) == old(self).phase),
            accepted ==> final(self).phase == pacer_next_phase(old(self).phase),
            !accepted ==> *final(self) == *old(self),
            final(self).inter_sample_ms == old(self).inter_sample_ms,
    {
        if matches!(ev, PacerEvent::Issued) && matches!(self.phase, PacerPhase::Issue) {
            self.phase = PacerPhase::AwaitResult;
            true
        } else if matches!(ev, PacerEvent::ResultHandled) && matches!(
            self.phase,
            PacerPhase::AwaitResult,
        ) {
            self.phase = PacerPhase::Cooldown;
            true
        } else if matches!(ev, PacerEvent::CooldownDone) && matches!(
            self.phase,
            PacerPhase::Cooldown,
        ) {
            self.phase = PacerPhase::Issue;
            true
        } else {
            false
        }
    }
}

} // verus!
