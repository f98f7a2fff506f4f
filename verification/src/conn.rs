//! Connection manager decisions. The manager owns the single persistent
//! stream connection to the device; the I/O itself (connecting, writing,
//! timed reads, the backoff sleep) lives outside this library, but every
//! decision — what to do with a frame, when a link counts as dead, when to
//! reconnect — is the pure transition function below, verified against its
//! transition table.
use vstd::prelude::*;

verus! {

/// Where the manager stands with the device link.
#[derive(Clone, Copy, PartialEq, Eq, Structural, Debug)]
pub enum ConnState {
    /// No link; the next step is to establish one.
    Disconnected,
    /// A live link; codes are relayed and noise is drained.
    Connected,
    /// The link was torn down; a reconnect is pending behind the backoff
    /// delay.
    Degraded,
}

/// What the surrounding loop observed.
#[derive(Debug)]
pub enum ConnEvent {
    /// Establishing the link succeeded.
    ConnectSucceeded,
    /// Establishing the link failed.
    ConnectFailed,
    /// The bridge handed over an outbound wire code.
    OutboundCode(String),
    /// No outbound code arrived within the polling window.
    OutboundIdle,
    /// A frame arrived while no exchange was outstanding — heartbeat or
    /// other asynchronous noise.
    IdleFrame(String),
    /// Polling the link while idle found nothing.
    IdleQuiet,
    /// The reply window after a write produced a frame.
    ReplyData(String),
    /// The reply window after a write closed with no data.
    ReplyTimedOut,
    /// The reply window produced something other than data.
    ReplyUnknown,
    /// Reading or writing the link failed.
    LinkFailed,
    /// The backoff delay has elapsed.
    BackoffElapsed,
    /// The previous action finished with nothing to report.
    Proceed,
}

/// What the surrounding loop must do next.
#[derive(Debug)]
pub enum ConnAction {
    /// Open the stream connection to the device.
    EstablishLink,
    /// Wait a polling window for the next outbound wire code.
    AwaitOutbound,
    /// Poll the link without blocking and report what is there.
    DrainNoise,
    /// Write the code to the device, let replies settle briefly, then read
    /// the reply window once. Some commands — notably power-on — answer
    /// with two frames in quick succession, so the settle-then-single-read
    /// forwards their concatenation rather than losing the second.
    TransmitAndCollect(String),
    /// Hand the collected frame to the waiting request flow.
    ForwardInbound(String),
    /// Drop the frame: a heartbeat or stale noise, never mistaken for an
    /// acknowledgement.
    DiscardFrame,
    /// Close the link and wait the fixed backoff delay.
    Backoff,
}

/// The transition table. Any frame read while no exchange is outstanding is
/// discarded; a reply window that closes silent counts as a dead link; a
/// dead or failed link is closed, waited out, and re-established.
pub open spec fn conn_step_spec(state: ConnState, event: ConnEvent) -> (ConnState, ConnAction) {
    match state {
        ConnState::Disconnected => match event {
            ConnEvent::ConnectSucceeded => (ConnState::Connected, ConnAction::AwaitOutbound),
            ConnEvent::ConnectFailed => (ConnState::Degraded, ConnAction::Backoff),
            ConnEvent::LinkFailed => (ConnState::Degraded, ConnAction::Backoff),
            _ => (ConnState::Disconnected, ConnAction::EstablishLink),
        },
        ConnState::Connected => match event {
            ConnEvent::OutboundCode(code) => (
                ConnState::Connected,
                ConnAction::TransmitAndCollect(code),
            ),
            ConnEvent::OutboundIdle => (ConnState::Connected, ConnAction::DrainNoise),
            ConnEvent::IdleFrame(_) => (ConnState::Connected, ConnAction::DiscardFrame),
            ConnEvent::IdleQuiet => (ConnState::Connected, ConnAction::AwaitOutbound),
            ConnEvent::ReplyData(frame) => (
                ConnState::Connected,
                ConnAction::ForwardInbound(frame),
            ),
            ConnEvent::ReplyTimedOut => (ConnState::Degraded, ConnAction::Backoff),
            ConnEvent::ReplyUnknown => (ConnState::Degraded, ConnAction::Backoff),
            ConnEvent::LinkFailed => (ConnState::Degraded, ConnAction::Backoff),
            _ => (ConnState::Connected, ConnAction::AwaitOutbound),
        },
        ConnState::Degraded => match event {
            ConnEvent::BackoffElapsed => (ConnState::Disconnected, ConnAction::EstablishLink),
            _ => (ConnState::Degraded, ConnAction::Backoff),
        },
    }
}

/// Take one step of the connection manager's state machine.
pub fn conn_step(state: ConnState, event: ConnEvent) -> (r: (ConnState, ConnAction))
    ensures
        r == conn_step_spec(state, event),
{
    match state {
        ConnState::Disconnected => match event {
            ConnEvent::ConnectSucceeded => (ConnState::Connected, ConnAction::AwaitOutbound),
            ConnEvent::ConnectFailed => (ConnState::Degraded, ConnAction::Backoff),
            ConnEvent::LinkFailed => (ConnState::Degraded, ConnAction::Backoff),
            _ => (ConnState::Disconnected, ConnAction::EstablishLink),
        },
        ConnState::Connected => match event {
            ConnEvent::OutboundCode(code) => (
                ConnState::Connected,
                ConnAction::TransmitAndCollect(code),
            ),
            ConnEvent::OutboundIdle => (ConnState::Connected, ConnAction::DrainNoise),
            ConnEvent::IdleFrame(_) => (ConnState::Connected, ConnAction::DiscardFrame),
            ConnEvent::IdleQuiet => (ConnState::Connected, ConnAction::AwaitOutbound),
            ConnEvent::ReplyData(frame) => (
                ConnState::Connected,
                ConnAction::ForwardInbound(frame),
            ),
            ConnEvent::ReplyTimedOut => (ConnState::Degraded, ConnAction::Backoff),
            ConnEvent::ReplyUnknown => (ConnState::Degraded, ConnAction::Backoff),
            ConnEvent::LinkFailed => (ConnState::Degraded, ConnAction::Backoff),
            _ => (ConnState::Connected, ConnAction::AwaitOutbound),
        },
        ConnState::Degraded => match event {
            ConnEvent::BackoffElapsed => (ConnState::Disconnected, ConnAction::EstablishLink),
            _ => (ConnState::Degraded, ConnAction::Backoff),
        },
    }
}

/// A frame arriving while no exchange is outstanding — the periodic
/// heartbeat among them — is discarded, and the manager stays connected:
/// it can never be mistaken for a command acknowledgement.
pub proof fn lemma_heartbeat_discarded(frame: String)
    ensures
        conn_step_spec(ConnState::Connected, ConnEvent::IdleFrame(frame)) == (
            ConnState::Connected,
            ConnAction::DiscardFrame,
        ),
{
}

/// A reply window that closes with no data counts as a dead connection:
/// the manager tears the link down, waits out the backoff, and
/// re-establishes the connection.
pub proof fn lemma_silent_reply_reconnects()
    ensures
        conn_step_spec(ConnState::Connected, ConnEvent::ReplyTimedOut) == (
            ConnState::Degraded,
            ConnAction::Backoff,
        ),
        conn_step_spec(ConnState::Degraded, ConnEvent::BackoffElapsed) == (
            ConnState::Disconnected,
            ConnAction::EstablishLink,
        ),
{
}

} // verus!
