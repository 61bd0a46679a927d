//! The kill switch decorator and its control handles.
//!
//! The flags live in one cell shared through `Rc` by the decorator and every
//! handle taken from it. Each access to the cell is a single read or a single
//! write that completes before anything else runs: the decorator reads the
//! flags before it consults the device, and a handle reads, updates and writes
//! back with no call in between. So no access can ever be nested in another.

use crate::device::{Device, DeviceCapabilities};
use crate::gate::GateState;
use std::rc::Rc;
use vstd::cell::invcell::InvCell;
use vstd::predicate::Predicate;
use vstd::prelude::*;

verus! {

/// Every pair of flags is a valid gate state.
pub struct AnyGate {}

impl Predicate<GateState> for AnyGate {
    open spec fn predicate(&self, v: GateState) -> bool {
        true
    }
}

/// The shared cell that holds the flags.
pub type GateCell = InvCell<GateState, AnyGate>;

/// A device whose receive and transmit paths can be blocked at run time.
pub struct KillSwitch<P> {
    inner: P,
    switch: Rc<GateCell>,
}

/// A control handle: sets the flags of the kill switch it was taken from.
pub struct Switch {
    switch: Rc<GateCell>,
}

impl<P> KillSwitch<P> {
    /// The wrapped device.
    pub closed spec fn device(&self) -> P {
        self.inner
    }

    /// The shared cell that holds this kill switch's flags.
    pub closed spec fn cell(&self) -> GateCell {
        *self.switch
    }

    /// Wraps `device` with both paths open.
    pub fn new(device: P) -> (r: Self)
        ensures
            r.device() == device,
    {
        let cell = InvCell::new(GateState::new(), Ghost(AnyGate {}));
        KillSwitch { inner: device, switch: Rc::new(cell) }
    }

    /// A new handle on this gate's flags.
    pub fn switch(&self) -> (r: Switch)
        ensures
            r.cell() == self.cell(),
    {
        Switch { switch: Rc::clone(&self.switch) }
    }
}

impl Switch {
    /// The shared cell of the kill switch this handle controls.
    pub closed spec fn cell(&self) -> GateCell {
        *self.switch
    }

    /// Blocks (`true`) or opens (`false`) the receive path; returns whether
    /// it was blocked before.
    pub fn kill_rx(&self, killed: bool) -> bool {
        let mut s = self.switch.get();
        let prev = s.set_rx_blocked(killed);
        self.switch.set(s);
        prev
    }

    /// Blocks (`true`) or opens (`false`) the transmit path; returns whether
    /// it was blocked before.
    pub fn kill_tx(&self, killed: bool) -> bool {
        let mut s = self.switch.get();
        let prev = s.set_tx_blocked(killed);
        self.switch.set(s);
        prev
    }
}

impl Clone for Switch {
    /// Another handle on the same flags.
    fn clone(&self) -> (r: Switch)
        ensures
            r.cell() == self.cell(),
    {
        Switch { switch: Rc::clone(&self.switch) }
    }
}

impl<P> std::ops::Deref for KillSwitch<P> {
    type Target = P;

    /// The wrapped device, to reach what it offers besides the gated calls.
    fn deref(&self) -> (r: &P)
        ensures
            *r == self.device(),
    {
        &self.inner
    }
}

impl<P: Device> Device for KillSwitch<P> {
    type RxToken = P::RxToken;
    type TxToken = P::TxToken;

    /// `None` while receive is blocked, with the device untouched; else the
    /// device's own answer.
    fn receive(&mut self) -> (r: Option<(P::RxToken, P::TxToken)>)
        ensures
            final(self).cell() == old(self).cell(),
            (r.is_none() && final(self).device() == old(self).device()) || exists|m: &mut P|
                *m == old(self).device() && *final(m) == final(self).device() && call_ensures(
                    P::receive,
                    (m,),
                    r,
                ),
    {
        let s = self.switch.get();
        s.admit_receive(&mut self.inner)
    }

    /// `None` while transmit is blocked, with the device untouched; else the
    /// device's own answer.
    fn transmit(&mut self) -> (r: Option<P::TxToken>)
        ensures
            final(self).cell() == old(self).cell(),
            (r.is_none() && final(self).device() == old(self).device()) || exists|m: &mut P|
                *m == old(self).device() && *final(m) == final(self).device() && call_ensures(
                    P::transmit,
                    (m,),
                    r,
                ),
    {
        let s = self.switch.get();
        s.admit_transmit(&mut self.inner)
    }

    /// The device's capabilities, whatever the flags hold.
    fn capabilities(&self) -> (r: DeviceCapabilities)
        ensures
            call_ensures(P::capabilities, (&self.device(),), r),
    {
        self.inner.capabilities()
    }
}

} // verus!
