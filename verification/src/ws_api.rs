//! The gateway session of the single-command bot: a simpler session than
//! [`crate::bot::Bot`]. It identifies with its own presence, keeps the
//! session id of `READY`, hands `MESSAGE_CREATE` events on and ignores the
//! rest. Each payload is handed to a step function that updates the session
//! and says what to do; the caller performs the I/O.
use vstd::prelude::*;
use vstd::string::*;

use crate::bot::{heartbeat_text, resume_text};
use crate::structs::{Opcode, Payload};
use crate::text::{json_string, push_decimal, push_json_string, str_eq};

verus! {

/// The data of a payload, as far as this session reads it.
#[derive(Debug, Clone)]
pub struct SessionData {
    /// The data as a boolean, if it is one
    pub as_bool: Option<bool>,
    /// Its `heartbeat_interval` field as an unsigned integer, if it has one
    pub heartbeat_interval: Option<u64>,
    /// Its `session_id` field as a string, if it has one
    pub session_id: Option<String>,
}

/// The abstract value of [`SessionData`].
pub struct SessionDataView {
    pub as_bool: Option<bool>,
    pub heartbeat_interval: Option<u64>,
    pub session_id: Option<Seq<char>>,
}

/// The abstract value of a payload of this session.
pub struct WsPayloadView {
    pub op: Opcode,
    pub d: Option<SessionDataView>,
    pub s: Option<nat>,
    pub t: Option<Seq<char>>,
}

pub open spec fn session_data_view(d: SessionData) -> SessionDataView {
    SessionDataView {
        as_bool: d.as_bool,
        heartbeat_interval: d.heartbeat_interval,
        session_id: match d.session_id {
            Some(s) => Some(s@),
            None => None,
        },
    }
}

pub open spec fn ws_payload_view(p: &Payload<SessionData>) -> WsPayloadView {
    WsPayloadView {
        op: p.op,
        d: match p.d {
            Some(d) => Some(session_data_view(d)),
            None => None,
        },
        s: match p.s {
            Some(n) => Some(n as nat),
            None => None,
        },
        t: match p.t {
            Some(t) => Some(t@),
            None => None,
        },
    }
}

/// The session of the single-command bot on one connection.
pub struct WsSession {
    token: String,
    identified: bool,
    sequence_number: usize,
    session_id: String,
    heartbeat: Option<u64>,
}

/// The abstract value of a [`WsSession`].
pub struct WsSessionView {
    pub token: Seq<char>,
    pub identified: bool,
    pub seq: nat,
    pub session: Seq<char>,
    pub heartbeat: Option<u64>,
}

impl View for WsSession {
    type V = WsSessionView;

    closed spec fn view(&self) -> WsSessionView {
        WsSessionView {
            token: self.token@,
            identified: self.identified,
            seq: self.sequence_number as nat,
            session: self.session_id@,
            heartbeat: self.heartbeat,
        }
    }
}

/// The session at the start of a connection.
pub open spec fn fresh_session(token: Seq<char>) -> WsSessionView {
    WsSessionView { token, identified: false, seq: 0, session: Seq::empty(), heartbeat: None }
}

/// What the caller does after a payload was handled.
pub enum WsAction {
    Nothing,
    /// Write this text frame to the socket
    Send(String),
    /// Start a heartbeat every so many milliseconds
    StartHeartbeat(u64),
    /// Stop the heartbeat and end the connection
    StopSession,
    /// Parse the payload's data as a message and answer it
    HandleMessage,
}

pub enum WsActionView {
    Nothing,
    Send(Seq<char>),
    StartHeartbeat(u64),
    StopSession,
    HandleMessage,
}

impl View for WsAction {
    type V = WsActionView;

    open spec fn view(&self) -> WsActionView {
        match self {
            WsAction::Nothing => WsActionView::Nothing,
            WsAction::Send(s) => WsActionView::Send(s@),
            WsAction::StartHeartbeat(i) => WsActionView::StartHeartbeat(*i),
            WsAction::StopSession => WsActionView::StopSession,
            WsAction::HandleMessage => WsActionView::HandleMessage,
        }
    }
}

/// The identify frame (opcode 2) of the single-command bot for `token`: it
/// asks for guild message events and shows "Brickity brick 🧱" as its game.
pub open spec fn ws_identify_text(token: Seq<char>) -> Seq<char> {
    "{\"d\":{\"intents\":512,\"presence\":{\"activities\":[{\"name\":\"Brickity brick 🧱\",\"type\":0}],\"afk\":false,\"since\":0,\"status\":\"online\"},\"properties\":{\"$browser\":\"brick-bot\",\"$device\":\"brick-bot\",\"$os\":\"windows\"},\"token\":"@
        + json_string(token) + "},\"op\":2}"@
}

/// Whether handling `p` in state `v` is defined: a hello needs its
/// interval, a dispatch its sequence number (and a `READY` its session id,
/// a `MESSAGE_CREATE` its data), an invalid session a boolean and, when it
/// cannot be resumed, a running heartbeat to stop.
pub open spec fn ws_accepts(v: WsSessionView, p: WsPayloadView) -> bool {
    match p.op {
        Opcode::Hello => p.d matches Some(d) && d.heartbeat_interval is Some,
        Opcode::Dispatch => {
            &&& p.s is Some
            &&& p.t == Some("READY"@) ==> (p.d matches Some(d) && d.session_id is Some)
            &&& p.t == Some("MESSAGE_CREATE"@) ==> p.d is Some
        },
        Opcode::InvalidSession => p.d matches Some(d) && d.as_bool matches Some(b) && (!b
            ==> v.heartbeat is Some),
        _ => true,
    }
}

/// The session after handling payload `p` in state `v`.
pub open spec fn ws_next(v: WsSessionView, p: WsPayloadView) -> WsSessionView {
    match p.op {
        Opcode::Hello => WsSessionView { heartbeat: Some(p.d->0.heartbeat_interval->0), ..v },
        Opcode::HeartbeatAck => WsSessionView { identified: true, ..v },
        Opcode::Dispatch => if p.t == Some("READY"@) {
            WsSessionView { seq: p.s->0, session: p.d->0.session_id->0, ..v }
        } else {
            WsSessionView { seq: p.s->0, ..v }
        },
        Opcode::InvalidSession => if p.d->0.as_bool->0 {
            WsSessionView { identified: true, ..v }
        } else {
            WsSessionView { heartbeat: None, ..v }
        },
        Opcode::Reconnect => WsSessionView { identified: true, ..v },
        _ => v,
    }
}

/// What handling payload `p` in state `v` asks the caller to do.
pub open spec fn ws_output(v: WsSessionView, p: WsPayloadView) -> WsActionView {
    match p.op {
        Opcode::Hello => WsActionView::StartHeartbeat(p.d->0.heartbeat_interval->0),
        Opcode::HeartbeatAck => if v.identified {
            WsActionView::Nothing
        } else {
            WsActionView::Send(ws_identify_text(v.token))
        },
        Opcode::Dispatch => if p.t == Some("MESSAGE_CREATE"@) {
            WsActionView::HandleMessage
        } else {
            WsActionView::Nothing
        },
        Opcode::InvalidSession => if p.d->0.as_bool->0 {
            WsActionView::Send(ws_identify_text(v.token))
        } else {
            WsActionView::StopSession
        },
        Opcode::Reconnect => WsActionView::Send(resume_text(v.token, v.session, v.seq)),
        _ => WsActionView::Nothing,
    }
}

/// The identify frame of the single-command bot for `token`.
fn ws_identify_message(token: &str) -> (r: String)
    ensures
        r@ == ws_identify_text(token@),
{
    let mut m = String::from_str(
        "{\"d\":{\"intents\":512,\"presence\":{\"activities\":[{\"name\":\"Brickity brick 🧱\",\"type\":0}],\"afk\":false,\"since\":0,\"status\":\"online\"},\"properties\":{\"$browser\":\"brick-bot\",\"$device\":\"brick-bot\",\"$os\":\"windows\"},\"token\":",
    );
    push_json_string(&mut m, token);
    m.append("},\"op\":2}");
    m
}

impl WsSession {
    /// A session at the start of a connection, for the bot with `token`.
    pub fn new(token: String) -> (r: Self)
        ensures
            r@ == fresh_session(token@),
    {
        WsSession {
            token,
            identified: false,
            sequence_number: 0,
            session_id: String::new(),
            heartbeat: None,
        }
    }

    /// The frame the heartbeat sends now: the last sequence number.
    pub fn heartbeat_message(&self) -> (r: String)
        ensures
            r@ == heartbeat_text(self@.seq),
    {
        let mut m = String::from_str("{\"d\":");
        push_decimal(&mut m, self.sequence_number as u64);
        m.append(",\"op\":1}");
        m
    }

    /// Whether [`WsSession::on_payload`] is defined on `payload` now.
    pub fn can_handle(&self, payload: &Payload<SessionData>) -> (r: bool)
        ensures
            r == ws_accepts(self@, ws_payload_view(payload)),
    {
        proof {
            reveal_strlit("READY");
            reveal_strlit("MESSAGE_CREATE");
        }
        match payload.op {
            Opcode::Hello => match &payload.d {
                Some(d) => d.heartbeat_interval.is_some(),
                None => false,
            },
            Opcode::Dispatch => {
                if payload.s.is_none() {
                    return false;
                }
                match &payload.t {
                    Some(t) => {
                        if str_eq(t.as_str(), "READY") {
                            match &payload.d {
                                Some(d) => d.session_id.is_some(),
                                None => false,
                            }
                        } else if str_eq(t.as_str(), "MESSAGE_CREATE") {
                            payload.d.is_some()
                        } else {
                            true
                        }
                    },
                    None => true,
                }
            },
            Opcode::InvalidSession => match &payload.d {
                Some(d) => match d.as_bool {
                    Some(b) => b || self.heartbeat.is_some(),
                    None => false,
                },
                None => false,
            },
            _ => true,
        }
    }

    /// Handles one payload of the gateway.
    pub fn on_payload(&mut self, payload: &Payload<SessionData>) -> (r: WsAction)
        requires
            ws_accepts(old(self)@, ws_payload_view(payload)),
        ensures
            final(self)@ == ws_next(old(self)@, ws_payload_view(payload)),
            r@ == ws_output(old(self)@, ws_payload_view(payload)),
    {
        proof {
            reveal_strlit("READY");
            reveal_strlit("MESSAGE_CREATE");
        }
        match payload.op {
            Opcode::Hello => {
                let interval: u64 = match &payload.d {
                    Some(d) => d.heartbeat_interval.unwrap(),
                    None => 0,
                };
                self.heartbeat = Some(interval);
                WsAction::StartHeartbeat(interval)
            },
            Opcode::HeartbeatAck => {
                if !self.identified {
                    let m = ws_identify_message(self.token.as_str());
                    self.identified = true;
                    WsAction::Send(m)
                } else {
                    WsAction::Nothing
                }
            },
            Opcode::Dispatch => {
                self.sequence_number = payload.s.unwrap();
                match &payload.t {
                    Some(event) => {
                        if str_eq(event.as_str(), "MESSAGE_CREATE") {
                            proof {
                                reveal_strlit("MESSAGE_CREATE");
                                reveal_strlit("READY");
                                assert("MESSAGE_CREATE"@.len() != "READY"@.len());
                            }
                            WsAction::HandleMessage
                        } else if str_eq(event.as_str(), "READY") {
                            match &payload.d {
                                Some(d) => {
                                    self.session_id = d.session_id.as_ref().unwrap().clone();
                                },
                                None => {},
                            }
                            WsAction::Nothing
                        } else {
                            WsAction::Nothing
                        }
                    },
                    None => WsAction::Nothing,
                }
            },
            Opcode::InvalidSession => {
                let resumable: bool = match &payload.d {
                    Some(d) => d.as_bool.unwrap(),
                    None => false,
                };
                if !resumable {
                    // Reset connection
                    self.heartbeat = None;
                    return WsAction::StopSession;
                }
                let m = ws_identify_message(self.token.as_str());
                self.identified = true;
                WsAction::Send(m)
            },
            Opcode::Reconnect => {
                let mut m = String::from_str("{\"d\":{\"seq\":");
                push_decimal(&mut m, self.sequence_number as u64);
                m.append(",\"session_id\":");
                push_json_string(&mut m, self.session_id.as_str());
                m.append(",\"token\":");
                push_json_string(&mut m, self.token.as_str());
                m.append("},\"op\":6}");
                proof {
                    assert(m@ =~= resume_text(self.token@, self.session_id@, self.sequence_number as nat));
                }
                self.identified = true;
                WsAction::Send(m)
            },
            _ => WsAction::Nothing,
        }
    }
}

/// Once the session has identified itself, no payload makes it forget that.
pub proof fn lemma_ws_identified_persists(v: WsSessionView, p: WsPayloadView)
    requires
        v.identified,
    ensures
        ws_next(v, p).identified,
{
}

/// A heartbeat sent after a dispatch carries that dispatch's sequence number.
pub proof fn lemma_ws_heartbeat_after_dispatch(v: WsSessionView, p: WsPayloadView)
    requires
        p.op == Opcode::Dispatch,
        p.s is Some,
    ensures
        heartbeat_text(ws_next(v, p).seq) == heartbeat_text(p.s->0),
{
}

/// After a `READY` dispatch with session id `id` and sequence number `n`, a
/// reconnect request is answered by resuming exactly that session at `n`.
pub proof fn lemma_ws_resume_uses_ready_session(
    v: WsSessionView,
    p: WsPayloadView,
    id: Seq<char>,
    n: nat,
    q: WsPayloadView,
)
    requires
        p.op == Opcode::Dispatch,
        p.s == Some(n),
        p.t == Some("READY"@),
        p.d matches Some(d) && d.session_id == Some(id),
        q.op == Opcode::Reconnect,
    ensures
        ws_accepts(ws_next(v, p), q),
        ws_output(ws_next(v, p), q) == WsActionView::Send(resume_text(v.token, id, n)),
{
}

/// The first heartbeat acknowledgement of a connection sends the identify
/// frame; a later one sends nothing.
pub proof fn lemma_ws_first_ack_identifies(v: WsSessionView, p: WsPayloadView, q: WsPayloadView)
    requires
        !v.identified,
        p.op == Opcode::HeartbeatAck,
        q.op == Opcode::HeartbeatAck,
    ensures
        ws_output(v, p) == WsActionView::Send(ws_identify_text(v.token)),
        ws_output(ws_next(v, p), q) == WsActionView::Nothing,
{
}

/// Every frame the session sends leaves it identified, so the identify frame
/// goes out at most once until a new connection: after a resumable invalid
/// session (which identifies) or a reconnect (which resumes), an
/// acknowledgement sends nothing.
pub proof fn lemma_ws_send_leaves_identified(v: WsSessionView, p: WsPayloadView, q: WsPayloadView)
    requires
        ws_accepts(v, p),
        q.op == Opcode::HeartbeatAck,
    ensures
        ws_output(v, p) is Send ==> ws_next(v, p).identified,
        ws_output(v, p) is Send ==> ws_output(ws_next(v, p), q) == WsActionView::Nothing,
        (p.op == Opcode::InvalidSession && p.d->0.as_bool == Some(true)) ==> {
            &&& ws_output(v, p) == WsActionView::Send(ws_identify_text(v.token))
            &&& ws_next(v, p).identified
        },
        ws_next(v, p).token == v.token,
{
}

/// Only a `MESSAGE_CREATE` dispatch hands an event on.
pub proof fn lemma_ws_only_messages_handled(v: WsSessionView, p: WsPayloadView)
    ensures
        ws_output(v, p) == WsActionView::HandleMessage <==> (p.op == Opcode::Dispatch && p.t
            == Some("MESSAGE_CREATE"@)),
{
}

} // verus!
