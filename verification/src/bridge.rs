//! Request/response bridge: two single-capacity handoff slots, one carrying
//! outbound wire codes from the request flow to the connection manager, one
//! carrying inbound frames back. Both overwrite a stale occupant rather than
//! block, and the receive side waits only up to a bounded deadline, so at
//! most one exchange is ever in flight. The slots are crossbeam channels of
//! capacity one; what a channel holds is shared with the other side's
//! thread, so the trusted contracts below promise only what holds of every
//! outcome.
use crate::avr::AvrError;
use crossbeam_channel::{Receiver, Sender};
use vstd::prelude::*;

verus! {

#[verifier::external_type_specification]
#[verifier::external_body]
#[verifier::reject_recursive_types(T)]
pub struct ExSender<T>(Sender<T>);

#[verifier::external_type_specification]
#[verifier::external_body]
#[verifier::reject_recursive_types(T)]
pub struct ExReceiver<T>(Receiver<T>);

#[verifier::external_type_specification]
#[verifier::external_body]
#[verifier::reject_recursive_types(T)]
pub struct ExSendError<T>(crossbeam_channel::SendError<T>);

/// Upper bound on every bounded wait, far above the protocol's windows.
/// Past some astronomically large duration the underlying deadline
/// arithmetic overflows and the wait silently degrades to an unbounded
/// receive; capping the argument keeps "wait up to the timeout" exact.
pub const MAX_WAIT_MS: u64 = 60_000;

/// Why a bounded-wait receive came back empty-handed.
#[derive(Clone, Copy, PartialEq, Eq, Structural, Debug)]
enum LinkDown {
    /// Nothing arrived before the deadline.
    TimedOut,
    /// The other half of the bridge is gone.
    Closed,
}

/// Relies on crossbeam_channel::bounded: makes a channel that holds at most
/// one pending message.
#[verifier::external_body]
fn slot_channel() -> (Sender<String>, Receiver<String>) {
    crossbeam_channel::bounded(1)
}

/// Relies on crossbeam_channel::Sender::is_full: whether the slot held a
/// message at the moment of the call.
#[verifier::external_body]
fn slot_is_full(tx: &Sender<String>) -> bool {
    tx.is_full()
}

/// Relies on crossbeam_channel::Receiver::try_recv: takes the pending
/// message out of the slot if there was one.
#[verifier::external_body]
fn slot_try_recv(rx: &Receiver<String>) -> Option<String> {
    match rx.try_recv() {
        Ok(s) => Some(s),
        Err(crossbeam_channel::TryRecvError::Empty) => None,
        Err(crossbeam_channel::TryRecvError::Disconnected) => None,
    }
}

/// Relies on crossbeam_channel::Sender::send: delivers the message unless
/// every receiver is gone, in which case the message comes back inside the
/// error.
#[verifier::external_body]
fn slot_send(tx: &Sender<String>, msg: String) -> Result<
    (),
    crossbeam_channel::SendError<String>,
> {
    tx.send(msg)
}

/// Relies on crossbeam_channel::Receiver::recv_timeout: waits up to the
/// given number of milliseconds for a message. The bound keeps the
/// deadline within what an instant can hold, so the wait stays bounded.
#[verifier::external_body]
fn slot_recv_timeout(rx: &Receiver<String>, ms: u64) -> Result<String, LinkDown>
    requires
        ms <= MAX_WAIT_MS,
{
    match rx.recv_timeout(core::time::Duration::from_millis(ms)) {
        Ok(s) => Ok(s),
        Err(crossbeam_channel::RecvTimeoutError::Timeout) => Err(LinkDown::TimedOut),
        Err(crossbeam_channel::RecvTimeoutError::Disconnected) => Err(LinkDown::Closed),
    }
}

/// The two handoff slots. Built once at startup and handed by shared
/// reference to the connection manager's thread and to every request flow;
/// there is no ambient global channel pair. Concurrent exchanges are not
/// safely parallelizable: a second request in flight may overwrite the
/// first's outbound code or consume its frame, so callers that need strict
/// ordering must serialize at their own boundary.
pub struct Bridge {
    out_tx: Sender<String>,
    out_rx: Receiver<String>,
    in_tx: Sender<String>,
    in_rx: Receiver<String>,
}

impl Bridge {
    /// A fresh bridge with both slots empty.
    pub fn new() -> Bridge {
        let (out_tx, out_rx) = slot_channel();
        let (in_tx, in_rx) = slot_channel();
        Bridge { out_tx, out_rx, in_tx, in_rx }
    }

    /// Hand a wire code to the connection manager. If the slot still holds
    /// a code no consumer ever took, that code is stale: it is drained and
    /// discarded first, so the call never blocks behind it and only the
    /// newest code survives.
    pub fn send_outbound(&self, code: String) -> (r: Result<(), AvrError>)
        ensures
            r matches Err(e) ==> e matches AvrError::ConnectionLost,
    {
        if slot_is_full(&self.out_tx) {
            let _ = slot_try_recv(&self.out_rx);
        }
        match slot_send(&self.out_tx, code) {
            Ok(()) => Ok(()),
            Err(_) => Err(AvrError::ConnectionLost),
        }
    }

    /// Connection-manager side: wait up to `timeout_ms` for the next
    /// outbound wire code.
    pub fn recv_outbound(&self, timeout_ms: u64) -> (r: Result<String, AvrError>)
        requires
            timeout_ms <= MAX_WAIT_MS,
        ensures
            r matches Err(e) ==> (e matches AvrError::Timeout || e matches AvrError::ConnectionLost),
    {
        match slot_recv_timeout(&self.out_rx, timeout_ms) {
            Ok(code) => Ok(code),
            Err(LinkDown::TimedOut) => Err(AvrError::Timeout),
            Err(LinkDown::Closed) => Err(AvrError::ConnectionLost),
        }
    }

    /// Connection-manager side: hand a device frame to the waiting request
    /// flow, with the same overwrite-on-full discipline as the outbound
    /// slot.
    pub fn send_inbound(&self, frame: String) -> (r: Result<(), AvrError>)
        ensures
            r matches Err(e) ==> e matches AvrError::ConnectionLost,
    {
        if slot_is_full(&self.in_tx) {
            let _ = slot_try_recv(&self.in_rx);
        }
        match slot_send(&self.in_tx, frame) {
            Ok(()) => Ok(()),
            Err(_) => Err(AvrError::ConnectionLost),
        }
    }

    /// Take the pending inbound frame out of its slot without waiting, if
    /// one is there.
    pub fn try_take_inbound(&self) -> Option<String> {
        slot_try_recv(&self.in_rx)
    }

    /// Request-flow side: wait up to `timeout_ms` for the device's reply.
    /// A frame already sitting in the slot when the wait begins belongs to
    /// an earlier, abandoned exchange: it is discarded before waiting.
    pub fn recv_inbound(&self, timeout_ms: u64) -> (r: Result<String, AvrError>)
        requires
            timeout_ms <= MAX_WAIT_MS,
        ensures
            r matches Err(e) ==> (e matches AvrError::Timeout || e matches AvrError::ConnectionLost),
    {
        let _ = self.try_take_inbound();
        match slot_recv_timeout(&self.in_rx, timeout_ms) {
            Ok(frame) => Ok(frame),
            Err(LinkDown::TimedOut) => Err(AvrError::Timeout),
            Err(LinkDown::Closed) => Err(AvrError::ConnectionLost),
        }
    }
}

} // verus!
