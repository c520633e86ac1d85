//! The mode/state controller: a checked typestate lifecycle per sensor.
//!
//! A handle is `Ready` until a start transaction moves it into one of the
//! active modes; the matching stop transaction moves it back. Any other
//! request is a programming error and is rejected with a state error,
//! distinct from a bus-level transport error, and leaves the handle
//! unchanged.
//!
//! The start/stop bus transactions themselves are a capability of the
//! surrounding program; their outcome enters here as the `txn` argument and
//! the controller decides, for every possible outcome, what the new state and
//! the reported result are.

use vstd::prelude::*;

use crate::TransportError;

verus! {

/// The lifecycle state of one sensor handle. `Ready` means no mode is
/// active; `Dynamic` is the runtime-selected mode of operation that trades
/// the per-mode state guarantee for call-time flexibility.
#[derive(Clone, Copy, Debug, PartialEq, Eq, Structural)]
pub enum ModeTag {
    Ready,
    RangeContinuous,
    RangeSingle,
    AmbientContinuous,
    AmbientSingle,
    Dynamic,
}

/// How the sensor signals a finished result.
#[derive(Clone, Copy, Debug, PartialEq, Eq, Structural)]
pub enum InterruptMode {
    Disabled,
    LevelLow,
    LevelHigh,
    Window,
    NewSampleReady,
}

/// The configuration applied when a mode is started.
#[derive(Clone, Copy, Debug, PartialEq, Eq, Structural)]
pub struct ConfigOptions {
    pub interrupt_mode: InterruptMode,
    pub threshold_low: u16,
    pub threshold_high: u16,
    pub gain: u8,
    pub scaling: u8,
}

/// The power-on configuration: interrupts disabled, zero thresholds, unit
/// gain and scaling.
pub open spec fn initial_config() -> ConfigOptions {
    ConfigOptions {
        interrupt_mode: InterruptMode::Disabled,
        threshold_low: 0,
        threshold_high: 0,
        gain: 1,
        scaling: 1,
    }
}

impl Default for ConfigOptions {
    /// The power-on configuration, see [`initial_config`].
    fn default() -> (c: Self)
        ensures
            c == initial_config(),
    {
        ConfigOptions {
            interrupt_mode: InterruptMode::Disabled,
            threshold_low: 0,
            threshold_high: 0,
            gain: 1,
            scaling: 1,
        }
    }
}

/// Why a mode transition was refused.
#[derive(Clone, Copy, Debug, PartialEq, Eq, Structural)]
pub enum ModeError {
    /// The request is not an edge of the lifecycle; carries the mode the
    /// handle was, and still is, in.
    InvalidState(ModeTag),
    /// The start/stop transaction itself failed on the bus.
    Transport(TransportError),
}

/// The edges of the mode lifecycle: a start moves `Ready` into an active
/// mode, a stop moves an active mode back to `Ready`. Nothing else.
pub open spec fn allowed_transition(from: ModeTag, to: ModeTag) -> bool {
    ||| from == ModeTag::Ready && to != ModeTag::Ready
    ||| from != ModeTag::Ready && to == ModeTag::Ready
}

/// What a start request does: from any state but `Ready` it is rejected with
/// a state error and changes nothing; from `Ready` it commits the target mode
/// and configuration when the start transaction succeeded, and reports the
/// transport error, changing nothing, when it failed.
pub open spec fn start_spec(
    pre: SensorHandle,
    post: SensorHandle,
    target: ModeTag,
    cfg: ConfigOptions,
    txn: Result<(), TransportError>,
    r: Result<(), ModeError>,
) -> bool {
    &&& pre.mode != ModeTag::Ready ==> r == Err::<(), ModeError>(ModeError::InvalidState(pre.mode)) && post == pre
    &&& pre.mode == ModeTag::Ready && txn is Ok ==> r == Ok::<(), ModeError>(()) && post == (SensorHandle { mode: target, config: cfg, ..pre })
    &&& pre.mode == ModeTag::Ready ==> (txn matches Err(e) ==> r == Err::<(), ModeError>(
        ModeError::Transport(e),
    ) && post == pre)
}

/// What a stop request does: valid only from the matching active mode, in
/// which case a successful stop transaction returns the handle to `Ready`;
/// any rejection or transport failure leaves the handle unchanged.
pub open spec fn stop_spec(
    pre: SensorHandle,
    post: SensorHandle,
    target: ModeTag,
    txn: Result<(), TransportError>,
    r: Result<(), ModeError>,
) -> bool {
    &&& pre.mode != target ==> r == Err::<(), ModeError>(ModeError::InvalidState(pre.mode)) && post == pre
    &&& pre.mode == target && txn is Ok ==> r == Ok::<(), ModeError>(()) && post == (SensorHandle { mode: ModeTag::Ready, ..pre })
    &&& pre.mode == target ==> (txn matches Err(e) ==> r == Err::<(), ModeError>(
        ModeError::Transport(e),
    ) && post == pre)
}

/// The call-time choices of one acquisition in `Dynamic` mode.
#[derive(Clone, Copy, Debug, PartialEq, Eq, Structural)]
pub struct DynamicOp {
    /// Measure distance or ambient light.
    pub ambient: bool,
    /// Continuous or single-shot.
    pub continuous: bool,
    /// Block and poll for the result, or let the interrupt line report it.
    pub interrupt_driven: bool,
}

/// The live binding of a negotiated device slot to the bus: its unique
/// address, its lifecycle mode, the device-internal interrupt-cause flag and
/// the configuration the last successful start applied.
#[derive(Clone, Copy, Debug, PartialEq, Eq, Structural)]
pub struct SensorHandle {
    /// Index of the device slot this handle is bound to.
    pub slot: usize,
    /// The unique bus address negotiation assigned to the device.
    pub address: u8,
    /// The currently active mode, `Ready` when none.
    pub mode: ModeTag,
    /// The device-internal interrupt-cause flag.
    pub device_flag: bool,
    /// The configuration applied by the last successful start.
    pub config: ConfigOptions,
}

impl SensorHandle {
    /// A freshly negotiated handle: `Ready`, no pending interrupt cause,
    /// power-on configuration.
    pub fn new(slot: usize, address: u8) -> (h: Self)
        ensures
            h == (SensorHandle {
                slot,
                address,
                mode: ModeTag::Ready,
                device_flag: false,
                config: initial_config(),
            }),
    {
        SensorHandle {
            slot,
            address,
            mode: ModeTag::Ready,
            device_flag: false,
            config: ConfigOptions {
                interrupt_mode: InterruptMode::Disabled,
                threshold_low: 0,
                threshold_high: 0,
                gain: 1,
                scaling: 1,
            },
        }
    }

    /// Start `target` mode with configuration `cfg`; `txn` is the outcome of
    /// the start transaction the caller's bus capability performed (it is
    /// only issued for a handle that is `Ready`).
    pub fn start_mode(
        &mut self,
        target: ModeTag,
        cfg: ConfigOptions,
        txn: Result<(), TransportError>,
    ) -> (r: Result<(), ModeError>)
        requires
            target != ModeTag::Ready,
        ensures
            start_spec(*old(self), *final(self), target, cfg, txn, r),
    {
        match self.mode {
            ModeTag::Ready => match txn {
                Ok(()) => {
                    self.mode = target;
                    self.config = cfg;
                    Ok(())
                }
                Err(e) => Err(ModeError::Transport(e)),
            },
            m => Err(ModeError::InvalidState(m)),
        }
    }

    /// Stop `target` mode; `txn` is the outcome of the stop transaction the
    /// caller's bus capability performed (it is only issued for a handle
    /// whose active mode is `target`).
    pub fn stop_mode(&mut self, target: ModeTag, txn: Result<(), TransportError>) -> (r: Result<
        (),
        ModeError,
    >)
        requires
            target != ModeTag::Ready,
        ensures
            stop_spec(*old(self), *final(self), target, txn, r),
    {
        if self.mode == target {
            match txn {
                Ok(()) => {
                    self.mode = ModeTag::Ready;
                    Ok(())
                }
                Err(e) => Err(ModeError::Transport(e)),
            }
        } else {
            Err(ModeError::InvalidState(self.mode))
        }
    }

    /// Start continuous range measurements; valid only from `Ready`.
    pub fn start_range_continuous(
        &mut self,
        cfg: ConfigOptions,
        txn: Result<(), TransportError>,
    ) -> (r: Result<(), ModeError>)
        ensures
            start_spec(*old(self), *final(self), ModeTag::RangeContinuous, cfg, txn, r),
    {
        self.start_mode(ModeTag::RangeContinuous, cfg, txn)
    }

    /// Start one single-shot range measurement; valid only from `Ready`.
    pub fn start_range_single(
        &mut self,
        cfg: ConfigOptions,
        txn: Result<(), TransportError>,
    ) -> (r: Result<(), ModeError>)
        ensures
            start_spec(*old(self), *final(self), ModeTag::RangeSingle, cfg, txn, r),
    {
        self.start_mode(ModeTag::RangeSingle, cfg, txn)
    }

    /// Start continuous ambient-light measurements; valid only from `Ready`.
    pub fn start_ambient_continuous(
        &mut self,
        cfg: ConfigOptions,
        txn: Result<(), TransportError>,
    ) -> (r: Result<(), ModeError>)
        ensures
            start_spec(*old(self), *final(self), ModeTag::AmbientContinuous, cfg, txn, r),
    {
        self.start_mode(ModeTag::AmbientContinuous, cfg, txn)
    }

    /// Start one single-shot ambient-light measurement; valid only from
    /// `Ready`.
    pub fn start_ambient_single(
        &mut self,
        cfg: ConfigOptions,
        txn: Result<(), TransportError>,
    ) -> (r: Result<(), ModeError>)
        ensures
            start_spec(*old(self), *final(self), ModeTag::AmbientSingle, cfg, txn, r),
    {
        self.start_mode(ModeTag::AmbientSingle, cfg, txn)
    }

    /// Enter the runtime-selected dynamic mode; valid only from `Ready`.
    pub fn start_dynamic(&mut self, cfg: ConfigOptions, txn: Result<(), TransportError>) -> (r:
        Result<(), ModeError>)
        ensures
            start_spec(*old(self), *final(self), ModeTag::Dynamic, cfg, txn, r),
    {
        self.start_mode(ModeTag::Dynamic, cfg, txn)
    }

    /// Stop continuous range measurements; valid only while that mode is
    /// active.
    pub fn stop_range_continuous(&mut self, txn: Result<(), TransportError>) -> (r: Result<
        (),
        ModeError,
    >)
        ensures
            stop_spec(*old(self), *final(self), ModeTag::RangeContinuous, txn, r),
    {
        self.stop_mode(ModeTag::RangeContinuous, txn)
    }

    /// Stop the in-flight single-shot range measurement.
    pub fn stop_range_single(&mut self, txn: Result<(), TransportError>) -> (r: Result<
        (),
        ModeError,
    >)
        ensures
            stop_spec(*old(self), *final(self), ModeTag::RangeSingle, txn, r),
    {
        self.stop_mode(ModeTag::RangeSingle, txn)
    }

    /// Stop continuous ambient-light measurements.
    pub fn stop_ambient_continuous(&mut self, txn: Result<(), TransportError>) -> (r: Result<
        (),
        ModeError,
    >)
        ensures
            stop_spec(*old(self), *final(self), ModeTag::AmbientContinuous, txn, r),
    {
        self.stop_mode(ModeTag::AmbientContinuous, txn)
    }

    /// Stop the in-flight single-shot ambient-light measurement.
    pub fn stop_ambient_single(&mut self, txn: Result<(), TransportError>) -> (r: Result<
        (),
        ModeError,
    >)
        ensures
            stop_spec(*old(self), *final(self), ModeTag::AmbientSingle, txn, r),
    {
        self.stop_mode(ModeTag::AmbientSingle, txn)
    }

    /// Leave the runtime-selected dynamic mode.
    pub fn stop_dynamic(&mut self, txn: Result<(), TransportError>) -> (r: Result<(), ModeError>)
        ensures
            stop_spec(*old(self), *final(self), ModeTag::Dynamic, txn, r),
    {
        self.stop_mode(ModeTag::Dynamic, txn)
    }

    /// Interpret one polled result-read transaction. Reading a result is
    /// only meaningful while some mode is active: from `Ready` the request
    /// is a programming error and is rejected before any transaction should
    /// be issued. `outcome` is what the caller's bus capability returned for
    /// the read; the handle itself never changes.
    pub fn read_result(&self, outcome: Result<u16, TransportError>) -> (r: Result<u16, ModeError>)
        ensures
            self.mode == ModeTag::Ready ==> r == Err::<u16, ModeError>(
                ModeError::InvalidState(ModeTag::Ready),
            ),
            self.mode != ModeTag::Ready ==> (outcome matches Ok(v) ==> r == Ok::<u16, ModeError>(
                v,
            )),
            self.mode != ModeTag::Ready ==> (outcome matches Err(e) ==> r == Err::<u16, ModeError>(
                ModeError::Transport(e),
            )),
    {
        if self.mode == ModeTag::Ready {
            Err(ModeError::InvalidState(ModeTag::Ready))
        } else {
            match outcome {
                Ok(v) => Ok(v),
                Err(e) => Err(ModeError::Transport(e)),
            }
        }
    }

    /// Perform one runtime-selected acquisition while in `Dynamic` mode:
    /// `op` chooses range or ambient, continuous or single-shot, polled or
    /// interrupt-driven, at call time. `outcome` is what the caller's bus
    /// capability returned for the acquisition (only issued while the handle
    /// is in `Dynamic` mode). The lifecycle state never changes.
    pub fn dynamic_acquire(&mut self, op: DynamicOp, outcome: Result<u16, TransportError>) -> (r:
        Result<u16, ModeError>)
        ensures
            *final(self) == *old(self),
            old(self).mode != ModeTag::Dynamic ==> r == Err::<u16, ModeError>(
                ModeError::InvalidState(old(self).mode),
            ),
            old(self).mode == ModeTag::Dynamic ==> (outcome matches Ok(v) ==> r == Ok::<
                u16,
                ModeError,
            >(v)),
            old(self).mode == ModeTag::Dynamic ==> (outcome matches Err(e) ==> r == Err::<
                u16,
                ModeError,
            >(ModeError::Transport(e))),
    {
        let _ = op;
        if self.mode == ModeTag::Dynamic {
            match outcome {
                Ok(v) => Ok(v),
                Err(e) => Err(ModeError::Transport(e)),
            }
        } else {
            Err(ModeError::InvalidState(self.mode))
        }
    }

    /// Clear the device-internal interrupt-cause flag (one bus write to the
    /// device's interrupt-clear register).
    pub fn clear_interrupts(&mut self)
        ensures
            *final(self) == (SensorHandle { device_flag: false, ..*old(self) }),
    {
        self.device_flag = false;
    }
}

/// Law (lifecycle edges, static modes): leaving the runtime-selected
/// `Dynamic` target aside, the allowed transitions are exactly the starts
/// `Ready -> {RangeContinuous, RangeSingle, AmbientContinuous,
/// AmbientSingle}` and each active mode's stop back to `Ready`.
pub proof fn lemma_mode_edges(from: ModeTag, to: ModeTag)
    requires
        to != ModeTag::Dynamic,
    ensures
        allowed_transition(from, to) <==> {
            ||| from == ModeTag::Ready && (to == ModeTag::RangeContinuous
                || to == ModeTag::RangeSingle || to == ModeTag::AmbientContinuous
                || to == ModeTag::AmbientSingle)
            ||| to == ModeTag::Ready && (from == ModeTag::RangeContinuous
                || from == ModeTag::RangeSingle || from == ModeTag::AmbientContinuous
                || from == ModeTag::AmbientSingle || from == ModeTag::Dynamic)
        },
{
}

/// Law (transition outcomes): a start or stop that succeeds traverses an
/// allowed edge, and a rejected or failed one leaves the handle exactly as it
/// was.
pub proof fn lemma_transition_checked(
    pre: SensorHandle,
    post: SensorHandle,
    target: ModeTag,
    cfg: ConfigOptions,
    txn: Result<(), TransportError>,
    r: Result<(), ModeError>,
)
    requires
        target != ModeTag::Ready,
        start_spec(pre, post, target, cfg, txn, r) || stop_spec(pre, post, target, txn, r),
    ensures
        r is Ok ==> allowed_transition(pre.mode, post.mode),
        r is Err ==> post == pre,
{
}

} // verus!
