//! The per-device power controller.
//!
//! Each sensor position owns one digital control line that either holds the
//! device in reset (powered off) or releases it (powered on). While a device
//! is in reset it does not respond on the bus and forgets any address it was
//! given; the address negotiator exploits exactly this.

use vstd::prelude::*;

verus! {

/// The factory bus address every sensor answers on after leaving reset.
pub const DEFAULT_ADDRESS: u8 = 0x29;

/// Minimum settle time after releasing a device from reset before any bus
/// transaction may target it.
pub const BOOT_DELAY_MS: u32 = 1;

/// One physical sensor position: the state of its power-control line and the
/// bus address it currently answers on (beyond the factory default).
///
/// The `address` is volatile: it is assigned at most once per power-up during
/// negotiation and is lost whenever the control line drives the device back
/// into reset.
#[derive(Clone, Copy, Debug, PartialEq, Eq, Structural)]
pub struct DeviceSlot {
    /// Whether the control line currently releases the device from reset.
    pub powered: bool,
    /// The unique address assigned by negotiation, `None` until assigned and
    /// `None` again whenever the device is held in reset.
    pub address: Option<u8>,
}

impl DeviceSlot {
    /// A slot as created at startup: held in reset, no address assigned.
    pub fn new() -> (s: Self)
        ensures
            s == (DeviceSlot { powered: false, address: None::<u8> }),
    {
        DeviceSlot { powered: false, address: None }
    }

    /// Drive the control line to the reset level. Idempotent: the final state
    /// does not depend on the previous one. A device in reset stops
    /// responding on the bus and loses its assigned address.
    pub fn power_off(&mut self)
        ensures
            *final(self) == (DeviceSlot { powered: false, address: None::<u8> }),
    {
        self.powered = false;
        self.address = None;
    }

    /// Drive the control line to the release level. The caller must wait at
    /// least [`BOOT_DELAY_MS`] before any bus transaction targets the device.
    pub fn power_on(&mut self)
        ensures
            *final(self) == (DeviceSlot { powered: true, ..*old(self) }),
    {
        self.powered = true;
    }

    /// Record that the address-change transaction for this slot succeeded:
    /// the device now answers on `address` instead of the factory default.
    pub fn assign_address(&mut self, address: u8)
        requires
            old(self).powered,
        ensures
            *final(self) == (DeviceSlot { powered: true, address: Some(address) }),
    {
        self.address = Some(address);
    }
}

} // verus!
