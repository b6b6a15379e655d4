use brick_bot::structs::{Opcode, Payload};
use brick_bot::ws_api::{SessionData, WsAction, WsSession};

fn payload(op: Opcode, d: Option<SessionData>, s: Option<usize>, t: Option<&str>) -> Payload<SessionData> {
    Payload { op, d, s, t: t.map(|x| x.to_string()) }
}

fn data(as_bool: Option<bool>, interval: Option<u64>, session: Option<&str>) -> SessionData {
    SessionData { as_bool, heartbeat_interval: interval, session_id: session.map(|s| s.to_string()) }
}

/// Sorts keys and compacts, as serde_json does for `json!` values.
fn canonical(json: &str) -> String {
    let v: serde_json::Value = serde_json::from_str(json).unwrap();
    serde_json::to_string(&v).unwrap()
}

fn sent(a: WsAction) -> String {
    match a {
        WsAction::Send(s) => s,
        _ => panic!("expected a frame to send"),
    }
}

const IDENTIFY: &str = r#"{
    "op": 2,
    "d": {
        "token": "tok",
        "intents": 512,
        "properties": {"$os": "windows", "$browser": "brick-bot", "$device": "brick-bot"},
        "presence": {
            "activities": [{"name": "Brickity brick 🧱", "type": 0}],
            "status": "online",
            "since": 0,
            "afk": false
        }
    }
}"#;

#[test]
fn ws_handshake() {
    let mut s = WsSession::new("tok".to_string());
    assert_eq!(s.heartbeat_message(), r#"{"d":0,"op":1}"#);
    let hello = payload(Opcode::Hello, Some(data(None, Some(41250), None)), None, None);
    assert!(s.can_handle(&hello));
    assert!(matches!(s.on_payload(&hello), WsAction::StartHeartbeat(41250)));
    let ack = payload(Opcode::HeartbeatAck, None, None, None);
    assert_eq!(sent(s.on_payload(&ack)), canonical(IDENTIFY));
    assert!(matches!(s.on_payload(&ack), WsAction::Nothing));
}

#[test]
fn ws_dispatch_and_resume() {
    let mut s = WsSession::new("tok".to_string());
    let ready = payload(Opcode::Dispatch, Some(data(None, None, Some("sess\n1"))), Some(5), Some("READY"));
    assert!(s.can_handle(&ready));
    assert!(matches!(s.on_payload(&ready), WsAction::Nothing));
    assert_eq!(s.heartbeat_message(), r#"{"d":5,"op":1}"#);
    let created = payload(Opcode::Dispatch, Some(data(None, None, None)), Some(6), Some("MESSAGE_CREATE"));
    assert!(matches!(s.on_payload(&created), WsAction::HandleMessage));
    let other = payload(Opcode::Dispatch, None, Some(7), Some("TYPING_START"));
    assert!(s.can_handle(&other));
    assert!(matches!(s.on_payload(&other), WsAction::Nothing));
    let reconnect = payload(Opcode::Reconnect, None, None, None);
    assert_eq!(
        sent(s.on_payload(&reconnect)),
        canonical(r#"{"op":6,"d":{"token":"tok","session_id":"sess\n1","seq":7}}"#)
    );
    // the session now counts as identified: an ack sends nothing
    let ack = payload(Opcode::HeartbeatAck, None, None, None);
    assert!(matches!(s.on_payload(&ack), WsAction::Nothing));
}

#[test]
fn ws_reconnect_without_ready() {
    let mut s = WsSession::new("tok".to_string());
    let reconnect = payload(Opcode::Reconnect, None, None, None);
    assert_eq!(
        sent(s.on_payload(&reconnect)),
        canonical(r#"{"op":6,"d":{"token":"tok","session_id":"","seq":0}}"#)
    );
}

#[test]
fn ws_invalid_session() {
    let mut s = WsSession::new("tok".to_string());
    let resumable = payload(Opcode::InvalidSession, Some(data(Some(true), None, None)), None, None);
    assert_eq!(sent(s.on_payload(&resumable)), canonical(IDENTIFY));
    let final_one = payload(Opcode::InvalidSession, Some(data(Some(false), None, None)), None, None);
    // without a running heartbeat there is nothing to stop
    assert!(!s.can_handle(&final_one));
    let hello = payload(Opcode::Hello, Some(data(None, Some(1000), None)), None, None);
    s.on_payload(&hello);
    assert!(s.can_handle(&final_one));
    assert!(matches!(s.on_payload(&final_one), WsAction::StopSession));
}

#[test]
fn ws_undefined_payloads() {
    let s = WsSession::new("tok".to_string());
    assert!(!s.can_handle(&payload(Opcode::Hello, Some(data(None, None, None)), None, None)));
    assert!(!s.can_handle(&payload(Opcode::Hello, None, None, None)));
    assert!(!s.can_handle(&payload(Opcode::Dispatch, Some(data(None, None, None)), None, Some("MESSAGE_CREATE"))));
    assert!(!s.can_handle(&payload(Opcode::Dispatch, Some(data(None, None, None)), Some(1), Some("READY"))));
    assert!(!s.can_handle(&payload(Opcode::Dispatch, None, Some(1), Some("MESSAGE_CREATE"))));
    assert!(!s.can_handle(&payload(Opcode::InvalidSession, None, None, None)));
    assert!(s.can_handle(&payload(Opcode::Identify, None, None, None)));
}

#[test]
fn ws_client_opcodes_ignored() {
    let mut s = WsSession::new("tok".to_string());
    for op in [Opcode::Identify, Opcode::PresenceUpdate, Opcode::VoiceStateUpdate, Opcode::Resume, Opcode::RequestGuildMembers, Opcode::Heartbeat] {
        assert!(matches!(s.on_payload(&payload(op, None, None, None)), WsAction::Nothing));
    }
    assert_eq!(s.heartbeat_message(), r#"{"d":0,"op":1}"#);
}
