//! The two admission flags, the decisions taken on them, and the laws that
//! sequences of writes to them obey.

use crate::device::Device;
use vstd::prelude::*;

verus! {

/// The receive-blocked and transmit-blocked flags.
#[derive(Clone, Copy, Debug, PartialEq, Eq, Structural)]
pub struct GateState {
    pub no_rx: bool,
    pub no_tx: bool,
}

/// One write to the flags through a control handle.
pub enum GateWrite {
    Rx(bool),
    Tx(bool),
}

/// Both paths open.
pub open spec fn open_gate() -> GateState {
    GateState { no_rx: false, no_tx: false }
}

/// The state after one write.
pub open spec fn apply_write(s: GateState, w: GateWrite) -> GateState {
    match w {
        GateWrite::Rx(v) => GateState { no_rx: v, ..s },
        GateWrite::Tx(v) => GateState { no_tx: v, ..s },
    }
}

/// The state after a sequence of writes, first to last.
pub open spec fn apply_writes(s: GateState, ws: Seq<GateWrite>) -> GateState
    decreases ws.len(),
{
    if ws.len() == 0 {
        s
    } else {
        apply_write(apply_writes(s, ws.drop_last()), ws.last())
    }
}

/// After any sequence of writes, the receive flag holds the value of the last
/// receive write; writes to the transmit flag after it play no part.
pub proof fn lemma_rx_follows_last_write(s: GateState, ws: Seq<GateWrite>, i: int)
    requires
        0 <= i < ws.len(),
        ws[i] is Rx,
        forall|j: int| i < j < ws.len() ==> #[trigger] ws[j] is Tx,
    ensures
        apply_writes(s, ws).no_rx == ws[i]->Rx_0,
    decreases ws.len(),
{
    if i < ws.len() - 1 {
        lemma_rx_follows_last_write(s, ws.drop_last(), i);
    }
}

/// After any sequence of writes, the transmit flag holds the value of the last
/// transmit write; writes to the receive flag after it play no part.
pub proof fn lemma_tx_follows_last_write(s: GateState, ws: Seq<GateWrite>, i: int)
    requires
        0 <= i < ws.len(),
        ws[i] is Tx,
        forall|j: int| i < j < ws.len() ==> #[trigger] ws[j] is Rx,
    ensures
        apply_writes(s, ws).no_tx == ws[i]->Tx_0,
    decreases ws.len(),
{
    if i < ws.len() - 1 {
        lemma_tx_follows_last_write(s, ws.drop_last(), i);
    }
}

/// With no receive write in a sequence, the receive flag keeps its value.
pub proof fn lemma_rx_kept_without_rx_write(s: GateState, ws: Seq<GateWrite>)
    requires
        forall|j: int| 0 <= j < ws.len() ==> #[trigger] ws[j] is Tx,
    ensures
        apply_writes(s, ws).no_rx == s.no_rx,
    decreases ws.len(),
{
    if ws.len() > 0 {
        lemma_rx_kept_without_rx_write(s, ws.drop_last());
    }
}

/// With no transmit write in a sequence, the transmit flag keeps its value.
pub proof fn lemma_tx_kept_without_tx_write(s: GateState, ws: Seq<GateWrite>)
    requires
        forall|j: int| 0 <= j < ws.len() ==> #[trigger] ws[j] is Rx,
    ensures
        apply_writes(s, ws).no_tx == s.no_tx,
    decreases ws.len(),
{
    if ws.len() > 0 {
        lemma_tx_kept_without_tx_write(s, ws.drop_last());
    }
}

/// The two flags are independent: a write to either one, after any history,
/// leaves the other as it was.
pub proof fn lemma_flags_independent(s: GateState, ws: Seq<GateWrite>, v: bool)
    ensures
        apply_writes(s, ws.push(GateWrite::Tx(v))).no_rx == apply_writes(s, ws).no_rx,
        apply_writes(s, ws.push(GateWrite::Rx(v))).no_tx == apply_writes(s, ws).no_tx,
{
    assert(ws.push(GateWrite::Tx(v)).drop_last() =~= ws);
    assert(ws.push(GateWrite::Rx(v)).drop_last() =~= ws);
}

impl GateState {
    /// Both paths open.
    pub fn new() -> (r: GateState)
        ensures
            r == open_gate(),
    {
        GateState { no_rx: false, no_tx: false }
    }

    /// Sets the receive-blocked flag and returns the value it held before.
    pub fn set_rx_blocked(&mut self, blocked: bool) -> (r: bool)
        ensures
            r == old(self).no_rx,
            *final(self) == apply_write(*old(self), GateWrite::Rx(blocked)),
    {
        let prev = self.no_rx;
        self.no_rx = blocked;
        prev
    }

    /// Sets the transmit-blocked flag and returns the value it held before.
    pub fn set_tx_blocked(&mut self, blocked: bool) -> (r: bool)
        ensures
            r == old(self).no_tx,
            *final(self) == apply_write(*old(self), GateWrite::Tx(blocked)),
    {
        let prev = self.no_tx;
        self.no_tx = blocked;
        prev
    }

    /// Receive admission: `None` without touching `dev` when receive is
    /// blocked, else whatever `dev.receive()` gives.
    pub fn admit_receive<D: Device>(&self, dev: &mut D) -> (r: Option<(D::RxToken, D::TxToken)>)
        ensures
            self.no_rx ==> r.is_none() && *final(dev) == *old(dev),
            !self.no_rx ==> exists|m: &mut D|
                *m == *old(dev) && *final(m) == *final(dev) && call_ensures(D::receive, (m,), r),
    {
        if self.no_rx {
            None
        } else {
            dev.receive()
        }
    }

    /// Transmit admission: `None` without touching `dev` when transmit is
    /// blocked, else whatever `dev.transmit()` gives.
    pub fn admit_transmit<D: Device>(&self, dev: &mut D) -> (r: Option<D::TxToken>)
        ensures
            self.no_tx ==> r.is_none() && *final(dev) == *old(dev),
            !self.no_tx ==> exists|m: &mut D|
                *m == *old(dev) && *final(m) == *final(dev) && call_ensures(D::transmit, (m,), r),
    {
        if self.no_tx {
            None
        } else {
            dev.transmit()
        }
    }
}

impl Default for GateState {
    fn default() -> (r: GateState)
        ensures
            r == open_gate(),
    {
        GateState::new()
    }
}

} // verus!
