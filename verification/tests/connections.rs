//! WebSocket connections.
use voice_engine::clock::Millis;
use voice_engine::providers::ws::{
    on_connection_event, ConnAction, ConnEvent, WsAction, WsConfig, WsKeepalive, WsMessage,
    WsStatus, WsSupervisor,
};

fn secs(n: u64) -> Millis {
    Millis { ns: n * 1_000_000_000 }
}

#[test]
fn keepalive_ws_ping_produces_ping_message() {
    let ka = WsKeepalive::WsPing { interval: secs(30) };
    assert!(matches!(ka.message(), Some(WsMessage::Ping)));
    assert_eq!(ka.interval(), Some(secs(30)));
}

#[test]
fn keepalive_text_produces_text_message() {
    let ka = WsKeepalive::TextMessage {
        interval: secs(10),
        message: r#"{"type":"KeepAlive"}"#.to_string(),
    };
    if let Some(WsMessage::Text(t)) = ka.message() {
        assert!(t.contains("KeepAlive"));
    } else {
        panic!("expected Text message");
    }
}

#[test]
fn keepalive_binary_produces_its_payload() {
    let ka = WsKeepalive::BinaryMessage { interval: secs(30), payload: vec![0, 1, 2] };
    assert!(matches!(ka.message(), Some(WsMessage::Binary(b)) if b == vec![0, 1, 2]));
}

#[test]
fn keepalive_none_produces_no_message() {
    let ka = WsKeepalive::Off;
    assert!(ka.message().is_none());
    assert!(ka.interval().is_none());
}

#[test]
fn default_config_has_sensible_values() {
    let cfg = WsConfig::default();
    assert_eq!(cfg.max_reconnect_attempts, 3);
    assert_eq!(cfg.reconnect_delay, secs(1));
    assert!(matches!(cfg.keepalive, WsKeepalive::WsPing { .. }));
}

#[test]
fn ws_status_eq() {
    assert_eq!(WsStatus::Connected, WsStatus::Connected);
    assert_ne!(WsStatus::Connected, WsStatus::Reconnecting { attempt: 1 });
}

#[test]
fn pongs_are_not_forwarded() {
    assert!(matches!(
        on_connection_event(ConnEvent::Incoming { pong: true }),
        ConnAction::Continue
    ));
    assert!(matches!(
        on_connection_event(ConnEvent::Incoming { pong: false }),
        ConnAction::Forward
    ));
    assert!(matches!(on_connection_event(ConnEvent::Closed), ConnAction::End(_)));
}

#[test]
fn reconnecting_ends() {
    let config = WsConfig { max_total_reconnect_rounds: 2, ..WsConfig::default() };
    let mut s = WsSupervisor::new(&config);
    let mut attempts = 0;
    let mut action = s.on_connection_end("connection lost".to_string());
    loop {
        match action {
            WsAction::Attempt { attempt } => {
                attempts += 1;
                assert!(attempt >= 1 && attempt <= 3);
                action = s.on_attempt_failed();
            }
            WsAction::Stop { reason } => {
                assert!(reason.len() > 0);
                break;
            }
        }
        assert!(attempts < 100);
    }
    assert_eq!(attempts, 3);
}
