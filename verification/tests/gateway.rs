use brick_bot::bot::{
    route_event, Bot, BotBuilder, CloseFrame, DispatchRoute, FrameOutcome, GatewayAction,
    PayloadData, State, WsFrame,
};
use brick_bot::structs::{Opcode, Payload, Ready, Status, StatusType, User};
use brick_bot::BotError;

fn payload(op: Opcode, d: Option<PayloadData>, s: Option<usize>, t: Option<&str>) -> Payload<PayloadData> {
    Payload { op, d, s, t: t.map(|x| x.to_string()) }
}

fn data() -> PayloadData {
    PayloadData { as_bool: None, heartbeat_interval: None }
}

fn bot(token: &str) -> Bot {
    let mut b = BotBuilder::new();
    b.token(token.to_string());
    b.build().unwrap()
}

/// Sorts keys and compacts, as serde_json does for `json!` values.
fn canonical(json: &str) -> String {
    let v: serde_json::Value = serde_json::from_str(json).unwrap();
    serde_json::to_string(&v).unwrap()
}

fn sent(r: Result<GatewayAction, BotError>) -> String {
    match r {
        Ok(GatewayAction::Send(s)) => s,
        _ => panic!("expected a frame to send"),
    }
}

#[test]
fn build_requires_token() {
    match BotBuilder::new().build() {
        Err(BotError::InternalError(m)) => assert_eq!(m, "Cannot build bot without token."),
        _ => panic!("built without token"),
    }
    let b = bot("abc");
    assert_eq!(b.token(), "abc");
    assert!(!b.state().identified());
    assert!(!b.state().connection_open());
    assert_eq!(b.state().sequence_number(), 0);
    assert_eq!(b.heartbeat(), None);
}

#[test]
fn last_token_wins() {
    let mut b = BotBuilder::new();
    b.token("first".to_string()).token("second".to_string());
    assert_eq!(b.build().unwrap().token(), "second");
}

#[test]
fn handshake_sequence() {
    let mut b = bot("tok\"en");
    // hello starts the heartbeat and opens the connection
    let hello = payload(Opcode::Hello, Some(PayloadData { as_bool: None, heartbeat_interval: Some(41250) }), None, None);
    assert!(b.can_handle(&hello));
    assert!(matches!(b.handle_command(&hello), Ok(GatewayAction::StartHeartbeat(41250))));
    assert!(b.state().connection_open());
    assert_eq!(b.heartbeat(), Some(41250));
    // first ack identifies
    let ack = payload(Opcode::HeartbeatAck, None, None, None);
    let identify = sent(b.handle_command(&ack));
    assert_eq!(
        identify,
        canonical(r#"{"op":2,"d":{"token":"tok\"en","intents":1536,"properties":{"$os":"windows","$browser":"brick-bot","$device":"brick-bot"}}}"#)
    );
    assert!(b.state().identified());
    // a second ack sends nothing
    assert!(matches!(b.handle_command(&ack), Ok(GatewayAction::Nothing)));
}

#[test]
fn dispatch_records_sequence_and_routes() {
    let mut b = bot("t");
    let p = payload(Opcode::Dispatch, Some(data()), Some(42), Some("MESSAGE_CREATE"));
    assert!(matches!(b.handle_command(&p), Ok(GatewayAction::Dispatch(DispatchRoute::MessageCreate))));
    assert_eq!(b.state().sequence_number(), 42);
    let hb = sent(b.handle_command(&payload(Opcode::Heartbeat, None, None, None)));
    assert_eq!(hb, r#"{"d":42,"op":1}"#);
    assert_eq!(b.heartbeat_message(), r#"{"d":42,"op":1}"#);
    // unsupported event, no data needed
    let p = payload(Opcode::Dispatch, None, Some(43), Some("TYPING_START"));
    assert!(matches!(b.handle_command(&p), Ok(GatewayAction::Dispatch(DispatchRoute::Unsupported))));
    assert_eq!(b.state().sequence_number(), 43);
}

#[test]
fn dispatch_errors() {
    let mut b = bot("t");
    match b.handle_command(&payload(Opcode::Dispatch, Some(data()), None, Some("READY"))) {
        Err(BotError::ApiError(m)) => assert_eq!(m, "recieved event without sequence number"),
        _ => panic!(),
    }
    assert_eq!(b.state().sequence_number(), 0);
    match b.handle_command(&payload(Opcode::Dispatch, Some(data()), Some(7), None)) {
        Err(BotError::ApiError(m)) => assert_eq!(m, "recieved event without name"),
        _ => panic!(),
    }
    assert_eq!(b.state().sequence_number(), 7);
    match b.handle_command(&payload(Opcode::Dispatch, None, Some(8), Some("READY"))) {
        Err(BotError::ApiError(m)) => assert_eq!(m, "event READY did not contain any data"),
        _ => panic!(),
    }
    assert_eq!(b.state().sequence_number(), 8);
}

#[test]
fn routes_by_name() {
    assert_eq!(route_event("MESSAGE_CREATE"), DispatchRoute::MessageCreate);
    assert_eq!(route_event("MESSAGE_UPDATE"), DispatchRoute::MessageUpdate);
    assert_eq!(route_event("MESSAGE_DELETE"), DispatchRoute::MessageDelete);
    assert_eq!(route_event("READY"), DispatchRoute::Ready);
    assert_eq!(route_event("INTERACTION_CREATE"), DispatchRoute::InteractionCreate);
    assert_eq!(route_event("MESSAGE_REACTION_ADD"), DispatchRoute::ReactionAdd);
    assert_eq!(route_event("MESSAGE_REACTION_REMOVE"), DispatchRoute::ReactionRemove);
    assert_eq!(route_event("ready"), DispatchRoute::Unsupported);
}

#[test]
fn reconnect_resumes_ready_session() {
    let mut b = bot("secret");
    let reconnect = payload(Opcode::Reconnect, None, None, None);
    assert!(!b.can_handle(&reconnect));
    b.handle_command(&payload(Opcode::Dispatch, Some(data()), Some(3), Some("READY"))).unwrap();
    let ready = Ready {
        session_id: "sess".to_string(),
        user: User { id: "1".to_string(), username: "brick".to_string(), avatar: "a".to_string() },
    };
    b.on_ready(&ready);
    assert!(b.can_handle(&reconnect));
    let resume = sent(b.handle_command(&reconnect));
    assert_eq!(resume, canonical(r#"{"op":6,"d":{"token":"secret","session_id":"sess","seq":3}}"#));
    assert!(b.state().identified());
}

#[test]
fn invalid_session() {
    let mut b = bot("t");
    let hello = payload(Opcode::Hello, Some(PayloadData { as_bool: None, heartbeat_interval: Some(10) }), None, None);
    b.handle_command(&hello).unwrap();
    let resumable = payload(Opcode::InvalidSession, Some(PayloadData { as_bool: Some(true), heartbeat_interval: None }), None, None);
    let frame = sent(b.handle_command(&resumable));
    assert!(frame.starts_with(r#"{"d":{"intents":1536"#));
    assert!(b.state().identified());
    let dead = payload(Opcode::InvalidSession, Some(PayloadData { as_bool: Some(false), heartbeat_interval: None }), None, None);
    assert!(b.can_handle(&dead));
    assert!(matches!(b.handle_command(&dead), Ok(GatewayAction::StopHeartbeat)));
    assert!(!b.state().connection_open());
    assert_eq!(b.heartbeat(), None);
    // no heartbeat left to stop, and a payload that is not a boolean
    assert!(!b.can_handle(&dead));
    assert!(!b.can_handle(&payload(Opcode::InvalidSession, Some(data()), None, None)));
    assert!(!b.can_handle(&payload(Opcode::Hello, Some(data()), None, None)));
}

#[test]
fn client_opcodes_are_errors() {
    let mut b = bot("t");
    for op in [Opcode::Identify, Opcode::PresenceUpdate, Opcode::VoiceStateUpdate, Opcode::Resume, Opcode::RequestGuildMembers] {
        match b.handle_command(&payload(op, None, None, None)) {
            Err(BotError::ApiError(m)) => assert_eq!(m, format!("Recieved unexpected opcode: {:?}", op)),
            _ => panic!(),
        }
    }
}

#[test]
fn presence_only_when_identified() {
    let mut b = bot("t");
    let status = Status::new(StatusType::DoNotDisturb, "with \"bricks\"");
    assert!(b.presence_update(&status).is_none());
    b.handle_command(&payload(Opcode::HeartbeatAck, None, None, None)).unwrap();
    let frame = b.presence_update(&status).unwrap();
    assert_eq!(
        frame,
        canonical(r#"{"op":3,"d":{"status":"dnd","activities":[{"name":"with \"bricks\"","type":0}],"afk":false,"since":null}}"#)
    );
    let mut two = Status::new(StatusType::Idle, "a");
    two.activities.as_mut().unwrap().push(brick_bot::structs::Activity { name: "b".to_string(), activity_type: 2 });
    two.since = Some(91);
    two.afk = true;
    assert_eq!(
        b.presence_update(&two).unwrap(),
        canonical(r#"{"op":3,"d":{"status":"idle","activities":[{"name":"a","type":0},{"name":"b","type":2}],"afk":true,"since":91}}"#)
    );
    let none = Status { status: StatusType::Offline, activities: None, afk: false, since: None };
    assert_eq!(
        b.presence_update(&none).unwrap(),
        r#"{"d":{"activities":null,"afk":false,"since":null,"status":"offline"},"op":3}"#
    );
}

#[test]
fn websocket_messages() {
    let mut b = bot("t");
    b.handle_command(&payload(Opcode::Hello, Some(PayloadData { as_bool: None, heartbeat_interval: Some(5) }), None, None)).unwrap();
    assert!(matches!(b.read_ws_message(WsFrame::Text("{}".to_string())), FrameOutcome::Payload(ref s) if s == "{}"));
    assert!(matches!(b.read_ws_message(WsFrame::Ping(vec![1])), FrameOutcome::Ignored));
    assert!(matches!(b.read_ws_message(WsFrame::Pong(vec![])), FrameOutcome::Ignored));
    assert!(matches!(b.read_ws_message(WsFrame::Frame), FrameOutcome::Ignored));
    match b.read_ws_message(WsFrame::Binary(vec![0])) {
        FrameOutcome::Fatal(e) => assert_eq!(e, "Bot recieved binary message. Binary messages are not supported"),
        _ => panic!(),
    }
    assert!(b.state().connection_open());
    match b.read_ws_message(WsFrame::Close(Some(CloseFrame { code: 4004, reason: "Authentication failed.".to_string() }))) {
        FrameOutcome::Fatal(e) => assert_eq!(e, "Websocket error 4004: Authentication failed."),
        _ => panic!(),
    }
    assert!(!b.state().connection_open());
    match b.read_ws_message(WsFrame::Close(Some(CloseFrame { code: 1000, reason: String::new() }))) {
        FrameOutcome::Fatal(e) => assert_eq!(e, "Websocket error 1000"),
        _ => panic!(),
    }
    assert!(matches!(b.read_ws_message(WsFrame::Close(None)), FrameOutcome::Ignored));
}

#[test]
fn state_reset() {
    let mut s = State::new();
    match s.get_payload_from_ws_message(WsFrame::Close(None)) {
        FrameOutcome::Ignored => {}
        _ => panic!(),
    }
    s.reset_session();
    assert!(!s.identified() && !s.connection_open() && s.sequence_number() == 0);
    let mut b = bot("t");
    b.handle_command(&payload(Opcode::Hello, Some(PayloadData { as_bool: None, heartbeat_interval: Some(5) }), None, None)).unwrap();
    b.handle_command(&payload(Opcode::HeartbeatAck, None, None, None)).unwrap();
    b.handle_command(&payload(Opcode::Dispatch, None, Some(9), Some("X"))).unwrap();
    b.on_socket_error();
    assert!(!b.state().connection_open());
    assert_eq!(b.heartbeat(), Some(5));
    b.begin_connection();
    assert!(!b.state().identified());
    assert_eq!(b.state().sequence_number(), 0);
    assert_eq!(b.heartbeat(), None);
    assert_eq!(b.token(), "t");
}
