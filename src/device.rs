//! The device interface: what a kill switch wraps, and itself implements.

use vstd::prelude::*;

verus! {

/// Static properties of a device.
#[derive(Clone, Copy, Debug, PartialEq, Eq, Structural)]
pub struct DeviceCapabilities {
    /// Largest frame, in bytes, that the device sends or receives.
    pub max_transmission_unit: usize,
    /// Largest number of frames handled in one burst, where the device has a limit.
    pub max_burst_size: Option<usize>,
}

/// A network device that hands out operation tokens.
pub trait Device {
    /// Token that consumes one received frame.
    type RxToken;
    /// Token that sends one frame.
    type TxToken;

    /// Starts a receive: a frame together with a slot to reply in, or `None`
    /// when no frame is waiting.
    fn receive(&mut self) -> Option<(Self::RxToken, Self::TxToken)>;

    /// Starts a transmit: a slot to send in, or `None` when there is no room.
    fn transmit(&mut self) -> Option<Self::TxToken>;

    /// What the device can do; does not change.
    fn capabilities(&self) -> DeviceCapabilities;
}

/// `r` is a result that `capabilities` may give on `d`.
pub open spec fn capabilities_outcome<D: Device>(d: D, r: DeviceCapabilities) -> bool {
    call_ensures(D::capabilities, (&d,), r)
}

} // verus!
