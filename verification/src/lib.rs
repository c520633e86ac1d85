//! Coordination core for a set of identical time-of-flight distance/ambient
//! sensors that share one two-wire serial bus.
//!
//! Every sensor chip boots on the same factory bus address, so the devices are
//! brought up one at a time and each is assigned a unique address before the
//! next leaves reset ([`negotiate::negotiate`]). Once addressed, each handle
//! is driven through a checked mode lifecycle ([`mode::SensorHandle`]), and a
//! foreground loop shares the sensors and a status indicator with interrupt
//! handlers under a ceiling-style locking discipline ([`lock`],
//! [`interrupt`]).
//!
//! The bus itself, the GPIO lines and the delay timer are capabilities of the
//! surrounding program: every bus transaction's outcome enters this library
//! as a plain value, and the library decides what the outcome means.

use vstd::prelude::*;

pub mod foreground;
pub mod indicator;
pub mod interrupt;
pub mod lock;
pub mod mode;
pub mod negotiate;
pub mod power;

verus! {

/// A bus-level failure of a single transaction: the device did not
/// acknowledge, bus arbitration was lost, or the bus layer's own timeout
/// expired. Transport failures are always reported to the caller and never
/// retried by this core.
#[derive(Clone, Copy, Debug, PartialEq, Eq, Structural)]
pub enum TransportError {
    NoAck,
    ArbitrationLoss,
    Timeout,
}

} // verus!
