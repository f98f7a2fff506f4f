use alexa_avr_control::avr::{process, AvrError};
use alexa_avr_control::bridge::Bridge;
use alexa_avr_control::codec::{AvrCommand, CodecConfig};
use alexa_avr_control::conn::{conn_step, ConnAction, ConnEvent, ConnState};

fn cfg() -> CodecConfig {
    CodecConfig { volume_ceiling: 101, power_off_digit: 2 }
}

#[test]
fn outbound_slot_retains_only_second_code() {
    // Two sends without an intervening receive: the first code is stale and
    // is overwritten by the second.
    let bridge = Bridge::new();
    bridge.send_outbound("PO\r".to_string()).unwrap();
    bridge.send_outbound("PF\r".to_string()).unwrap();
    assert_eq!(bridge.recv_outbound(100).unwrap(), "PF\r");
    assert!(matches!(bridge.recv_outbound(100), Err(AvrError::Timeout)));
}

#[test]
fn inbound_slot_retains_only_second_frame() {
    let bridge = Bridge::new();
    bridge.send_inbound("VOL001\r\n".to_string()).unwrap();
    bridge.send_inbound("VOL002\r\n".to_string()).unwrap();
    assert_eq!(bridge.try_take_inbound(), Some("VOL002\r\n".to_string()));
    assert_eq!(bridge.try_take_inbound(), None);
}

#[test]
fn recv_inbound_times_out_when_nothing_arrives() {
    let bridge = Bridge::new();
    assert!(matches!(bridge.recv_inbound(100), Err(AvrError::Timeout)));
}

#[test]
fn recv_inbound_discards_stale_frame_before_waiting() {
    // A frame left over from an abandoned exchange is dropped when the next
    // wait begins, not handed to the new exchange.
    let bridge = Bridge::new();
    bridge.send_inbound("PWR0\r\n".to_string()).unwrap();
    assert!(matches!(bridge.recv_inbound(100), Err(AvrError::Timeout)));
    assert_eq!(bridge.try_take_inbound(), None);
}

#[test]
fn process_times_out_without_device() {
    // With nothing forwarding frames, the power query's bounded wait
    // elapses and the exchange surfaces a timeout.
    let bridge = Bridge::new();
    let r = process(&bridge, AvrCommand::Mute, &cfg());
    assert!(matches!(r, Err(AvrError::Timeout)));
}

#[test]
fn heartbeat_while_idle_is_discarded() {
    // The device's periodic heartbeat arrives while no exchange is
    // outstanding: the frame is dropped and the manager stays connected.
    let (state, action) = conn_step(ConnState::Connected, ConnEvent::IdleFrame("R\r\n".to_string()));
    assert_eq!(state, ConnState::Connected);
    assert!(matches!(action, ConnAction::DiscardFrame));
    // The next exchange is unaffected: an outbound code is still relayed.
    let (state, action) = conn_step(state, ConnEvent::OutboundCode("MO\r".to_string()));
    assert_eq!(state, ConnState::Connected);
    match action {
        ConnAction::TransmitAndCollect(code) => assert_eq!(code, "MO\r"),
        other => panic!("wrong action: {:?}", other),
    }
}

#[test]
fn silent_reply_window_tears_down_and_reconnects() {
    // No data inside the reply window counts as a dead connection: back
    // off, then re-establish the link.
    let (state, action) = conn_step(ConnState::Connected, ConnEvent::ReplyTimedOut);
    assert_eq!(state, ConnState::Degraded);
    assert!(matches!(action, ConnAction::Backoff));
    let (state, action) = conn_step(state, ConnEvent::BackoffElapsed);
    assert_eq!(state, ConnState::Disconnected);
    assert!(matches!(action, ConnAction::EstablishLink));
    let (state, action) = conn_step(state, ConnEvent::ConnectSucceeded);
    assert_eq!(state, ConnState::Connected);
    assert!(matches!(action, ConnAction::AwaitOutbound));
}

#[test]
fn connect_failure_backs_off() {
    let (state, action) = conn_step(ConnState::Disconnected, ConnEvent::ConnectFailed);
    assert_eq!(state, ConnState::Degraded);
    assert!(matches!(action, ConnAction::Backoff));
}

#[test]
fn reply_data_is_forwarded() {
    let (state, action) = conn_step(ConnState::Connected, ConnEvent::ReplyData("PWR0\r\n".to_string()));
    assert_eq!(state, ConnState::Connected);
    match action {
        ConnAction::ForwardInbound(frame) => assert_eq!(frame, "PWR0\r\n"),
        other => panic!("wrong action: {:?}", other),
    }
}

#[test]
fn idle_cycle_polls_and_waits() {
    let (state, action) = conn_step(ConnState::Connected, ConnEvent::OutboundIdle);
    assert_eq!(state, ConnState::Connected);
    assert!(matches!(action, ConnAction::DrainNoise));
    let (state, action) = conn_step(state, ConnEvent::IdleQuiet);
    assert_eq!(state, ConnState::Connected);
    assert!(matches!(action, ConnAction::AwaitOutbound));
}
