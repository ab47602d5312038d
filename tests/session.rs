use lan_mouse_grab::backoff::ReconnectPolicy;
use lan_mouse_grab::session::{
    ConnectError, ConnectionEvent, Handshake, HandshakeAction, HandshakeEvent, Message, Position,
    Supervisor,
};

fn ping_phase() -> Handshake {
    let (mut hs, mut action) = Handshake::start();
    let mut pings = 0;
    while let HandshakeAction::SendPing { then_wait_ms } = action {
        assert_eq!(then_wait_ms, 250);
        pings += 1;
        let next = hs.step(HandshakeEvent::PingSent);
        hs = next.0;
        action = next.1;
    }
    assert_eq!(pings, 8);
    assert_eq!(action, HandshakeAction::ReceivePong { within_ms: 5000 });
    hs
}

#[test]
fn reconnect_delays_double_to_the_cap() {
    let mut p = ReconnectPolicy::new(3000, 30000);
    assert_eq!(p.current_delay_ms(), 3000);
    let got: Vec<u64> = (0..6).map(|_| p.on_failure()).collect();
    assert_eq!(got, vec![6000, 12000, 24000, 30000, 30000, 30000]);
    p.on_success();
    assert_eq!(p.current_delay_ms(), 3000);
}

#[test]
fn handshake_completes() {
    let hs = ping_phase();
    let (hs, a) = hs.step(HandshakeEvent::Received(Message::Ping));
    assert_eq!(a, HandshakeAction::ReceivePong { within_ms: 5000 });
    let (hs, a) = hs.step(HandshakeEvent::Received(Message::Pong(true)));
    assert_eq!(a, HandshakeAction::SendEnter(Position::Right));
    let (hs, a) = hs.step(HandshakeEvent::EnterSent);
    assert_eq!(a, HandshakeAction::ReceiveAck { within_ms: 5000 });
    let (hs, a) = hs.step(HandshakeEvent::Received(Message::Leave(0)));
    assert_eq!(a, HandshakeAction::ReceiveAck { within_ms: 5000 });
    let (hs, a) = hs.step(HandshakeEvent::Received(Message::Ack(7)));
    assert_eq!(hs, Handshake::Established);
    assert_eq!(a, HandshakeAction::FinishConnected);
}

#[test]
fn pong_false_is_emulation_disabled() {
    let hs = ping_phase();
    let (hs, a) = hs.step(HandshakeEvent::Received(Message::Pong(false)));
    assert_eq!(a, HandshakeAction::FinishFailed(ConnectError::EmulationDisabled));
    let (_, a) = hs.step(HandshakeEvent::Received(Message::Pong(true)));
    assert_eq!(a, HandshakeAction::FinishFailed(ConnectError::EmulationDisabled));
}

#[test]
fn no_pong_is_a_timeout() {
    let hs = ping_phase();
    let (_, a) = hs.step(HandshakeEvent::TimedOut);
    assert_eq!(a, HandshakeAction::FinishFailed(ConnectError::NoPong));
}

#[test]
fn missing_ack_times_out_and_stays_disconnected() {
    let hs = ping_phase();
    let (hs, _) = hs.step(HandshakeEvent::Received(Message::Pong(true)));
    let (hs, _) = hs.step(HandshakeEvent::EnterSent);
    let (_, a) = hs.step(HandshakeEvent::TimedOut);
    assert_eq!(a, HandshakeAction::FinishFailed(ConnectError::NoAck));
    let mut sup = Supervisor::new(3000, 30000);
    sup.on_attempt_finished(Err(ConnectError::NoAck));
    assert!(!sup.forwards_input());
    assert_eq!(sup.retry_in_ms(), Some(6000));
}

#[test]
fn transport_failure_ends_handshake() {
    let (hs, _) = Handshake::start();
    let (_, a) = hs.step(HandshakeEvent::TransportFailed);
    assert_eq!(a, HandshakeAction::FinishFailed(ConnectError::Transport));
}

#[test]
fn supervisor_forwards_only_while_connected() {
    let mut sup = Supervisor::new(3000, 30000);
    assert!(!sup.forwards_input());
    sup.on_attempt_finished(Err(ConnectError::Transport));
    sup.on_attempt_finished(Err(ConnectError::Transport));
    assert_eq!(sup.retry_in_ms(), Some(12000));
    sup.on_connection_event(&ConnectionEvent::Connected);
    assert!(sup.forwards_input());
    assert_eq!(sup.retry_in_ms(), None);
    sup.on_connection_event(&ConnectionEvent::SendError("x".to_string()));
    assert!(sup.forwards_input());
    sup.on_connection_event(&ConnectionEvent::Disconnected("gone".to_string()));
    assert!(!sup.forwards_input());
    assert_eq!(sup.retry_in_ms(), Some(3000));
}
