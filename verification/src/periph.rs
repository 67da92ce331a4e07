//! Peripheral interfaces: the channel-addressed device contract that the
//! I/O controller drives, and an absent-device stand-in. What a peripheral
//! returns is outside the emulator core, so these methods carry no
//! contracts; the core states only what holds of every outcome.

use vstd::prelude::*;

verus! {

/// An interrupt-capable device.
pub trait Peripheral {
    /// The device's pending-interrupt mask (bit N set means interrupt index
    /// N is pending).
    fn is_interrupt(&mut self) -> u16;
}

/// A channel-addressed I/O device: the DSKY display and the downlink
/// forwarder implement this.
pub trait IoPeriph {
    /// Reads the device's view of a channel.
    fn read(&self, channel_idx: usize) -> u16;

    /// Observes a channel write mirrored by the I/O controller.
    fn write(&mut self, channel_idx: usize, value: u16);

    /// The device's pending-interrupt mask.
    fn is_interrupt(&mut self) -> u16;
}

/// A device that is wired to nothing: reads zero, ignores writes, and never
/// raises an interrupt.
pub struct NullPeriph {}

impl IoPeriph for NullPeriph {
    fn read(&self, _channel_idx: usize) -> u16 {
        0
    }

    fn write(&mut self, _channel_idx: usize, _value: u16) {
    }

    fn is_interrupt(&mut self) -> u16 {
        0
    }
}

} // verus!
