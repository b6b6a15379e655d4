//! API client: the gateway session of the bot as a state machine. Each
//! message from the gateway is handed to a step function that updates the
//! session and says what to do next (write a frame, start or stop the
//! heartbeat, hand an event on); the caller performs the I/O.
use vstd::prelude::*;
use vstd::string::*;

use crate::error::{is_api_error, is_internal_error, BotError};
use crate::structs::{
    opcode_name, status_type_name, Activity, Opcode, Payload, Ready, Status, StatusType,
};
use crate::text::{
    decimal, json_string, push_decimal, push_json_string, str_eq,
};

verus! {

pub struct BotBuilder {
    token: Option<String>,
}

impl BotBuilder {
    /// The token set so far, if any.
    pub closed spec fn token_view(&self) -> Option<Seq<char>> {
        match self.token {
            Some(t) => Some(t@),
            None => None,
        }
    }

    pub fn new() -> (r: Self)
        ensures
            r.token_view() is None,
    {
        Self { token: None }
    }

    /// Sets token fot bot to use
    pub fn token(&mut self, token: String) -> (r: &mut Self)
        ensures
            r.token_view() == Some(token@),
            *final(self) == *final(r),
    {
        self.token = Some(token);
        self
    }

    /// Builds [`Bot`]: fails exactly when no token was set.
    pub fn build(&self) -> (r: Result<Bot, BotError>)
        ensures
            r is Err <==> self.token_view() is None,
            r matches Err(e) ==> is_internal_error(e, "Cannot build bot without token."@),
            r matches Ok(bot) ==> bot@ == fresh_bot(self.token_view()->0),
    {
        match &self.token {
            None => Err(BotError::InternalError(String::from_str("Cannot build bot without token."))),
            Some(token) => Ok(Bot { token: token.clone(), state: State::new(), heartbeat: None }),
        }
    }
}

/// What the session knows: whether the bot identified itself, whether the
/// connection is open, the last sequence number and the session id.
pub struct State {
    identified: bool,
    connecion_open: bool,
    sequence_number: usize,
    session_id: Option<String>,
}

/// The abstract value of a [`State`].
pub struct StateView {
    pub identified: bool,
    pub open: bool,
    pub seq: nat,
    pub session: Option<Seq<char>>,
}

/// The state of a session that has not started.
pub open spec fn fresh_state() -> StateView {
    StateView { identified: false, open: false, seq: 0, session: None }
}

impl View for State {
    type V = StateView;

    closed spec fn view(&self) -> StateView {
        StateView {
            identified: self.identified,
            open: self.connecion_open,
            seq: self.sequence_number as nat,
            session: match self.session_id {
                Some(s) => Some(s@),
                None => None,
            },
        }
    }
}

/// The outcome of reading one websocket message.
pub enum FrameOutcome {
    /// A text payload to parse
    Payload(String),
    /// Nothing to do
    Ignored,
    /// The connection is unusable; the text says why
    Fatal(String),
}

/// The close frame of a websocket: its code and reason.
pub struct CloseFrame {
    pub code: u16,
    pub reason: String,
}

/// A websocket message as read from the gateway.
pub enum WsFrame {
    Text(String),
    Binary(Vec<u8>),
    Ping(Vec<u8>),
    Pong(Vec<u8>),
    Close(Option<CloseFrame>),
    /// A raw frame, which reading never yields
    Frame,
}

/// The text of the error that a close frame becomes.
pub open spec fn close_error_text(code: u16, reason: Seq<char>) -> Seq<char> {
    if reason.len() == 0 {
        "Websocket error "@ + decimal(code as nat)
    } else {
        "Websocket error "@ + decimal(code as nat) + ": "@ + reason
    }
}

impl State {
    pub fn new() -> (r: Self)
        ensures
            r@ == fresh_state(),
    {
        Self { identified: false, connecion_open: false, sequence_number: 0, session_id: None }
    }

    /// Resets identification, sequence number, connection status and session_id
    pub fn reset_session(&mut self)
        ensures
            final(self)@ == fresh_state(),
    {
        self.identified = false;
        self.connecion_open = false;
        self.sequence_number = 0;
        self.session_id = None;
    }

    pub fn identified(&self) -> (r: bool)
        ensures
            r == self@.identified,
    {
        self.identified
    }

    /// Frames may be written only while this holds.
    pub fn connection_open(&self) -> (r: bool)
        ensures
            r == self@.open,
    {
        self.connecion_open
    }

    pub fn sequence_number(&self) -> (r: usize)
        ensures
            r as nat == self@.seq,
    {
        self.sequence_number
    }

    /// Classifies a websocket message: text is a payload, a close frame
    /// closes the connection (fatal if it carries a code), binary messages
    /// are fatal, the rest is ignored.
    pub fn get_payload_from_ws_message(&mut self, message: WsFrame) -> (r: FrameOutcome)
        ensures
            (message is Close) ==> final(self)@ == (StateView { open: false, ..old(self)@ }),
            !(message is Close) ==> final(self)@ == old(self)@,
            match message {
                WsFrame::Text(s) => r matches FrameOutcome::Payload(p) && p@ == s@,
                WsFrame::Binary(_) => r matches FrameOutcome::Fatal(e) && e@
                    == "Bot recieved binary message. Binary messages are not supported"@,
                WsFrame::Close(Some(f)) => r matches FrameOutcome::Fatal(e) && e@ == close_error_text(
                    f.code,
                    f.reason@,
                ),
                _ => r is Ignored,
            },
    {
        match message {
            WsFrame::Text(payload_str) => FrameOutcome::Payload(payload_str),
            WsFrame::Binary(_) => FrameOutcome::Fatal(
                String::from_str("Bot recieved binary message. Binary messages are not supported"),
            ),
            WsFrame::Close(frame) => {
                self.connecion_open = false;
                match frame {
                    Some(frame) => {
                        let mut text = String::from_str("Websocket error ");
                        push_decimal(&mut text, frame.code as u64);
                        if frame.reason.unicode_len() != 0 {
                            text.append(": ");
                            text.append(frame.reason.as_str());
                        }
                        proof {
                            assert(text@ =~= close_error_text(frame.code, frame.reason@));
                        }
                        FrameOutcome::Fatal(text)
                    },
                    None => FrameOutcome::Ignored,
                }
            },
            _ => FrameOutcome::Ignored,
        }
    }
}

/// The data of a payload, as far as the session reads it.
#[derive(Debug, Clone, Copy)]
pub struct PayloadData {
    /// The data as a boolean, if it is one
    pub as_bool: Option<bool>,
    /// Its `heartbeat_interval` field as an unsigned integer, if it has one
    pub heartbeat_interval: Option<u64>,
}

/// The abstract value of a gateway payload.
pub struct PayloadView {
    pub op: Opcode,
    pub d: Option<PayloadData>,
    pub s: Option<nat>,
    pub t: Option<Seq<char>>,
}

pub open spec fn payload_view(p: &Payload<PayloadData>) -> PayloadView {
    PayloadView {
        op: p.op,
        d: p.d,
        s: match p.s {
            Some(n) => Some(n as nat),
            None => None,
        },
        t: match p.t {
            Some(t) => Some(t@),
            None => None,
        },
    }
}

/// Which event a dispatch carries, by its name.
#[derive(Debug, Clone, Copy, PartialEq, Eq, Structural)]
pub enum DispatchRoute {
    MessageCreate,
    MessageUpdate,
    MessageDelete,
    Ready,
    InteractionCreate,
    ReactionAdd,
    ReactionRemove,
    /// An event the bot does not handle
    Unsupported,
}

pub open spec fn route_of(name: Seq<char>) -> DispatchRoute {
    if name == "MESSAGE_CREATE"@ {
        DispatchRoute::MessageCreate
    } else if name == "MESSAGE_UPDATE"@ {
        DispatchRoute::MessageUpdate
    } else if name == "MESSAGE_DELETE"@ {
        DispatchRoute::MessageDelete
    } else if name == "READY"@ {
        DispatchRoute::Ready
    } else if name == "INTERACTION_CREATE"@ {
        DispatchRoute::InteractionCreate
    } else if name == "MESSAGE_REACTION_ADD"@ {
        DispatchRoute::ReactionAdd
    } else if name == "MESSAGE_REACTION_REMOVE"@ {
        DispatchRoute::ReactionRemove
    } else {
        DispatchRoute::Unsupported
    }
}

/// The event that the dispatch named `name` carries.
pub fn route_event(name: &str) -> (r: DispatchRoute)
    ensures
        r == route_of(name@),
{
    if str_eq(name, "MESSAGE_CREATE") {
        DispatchRoute::MessageCreate
    } else if str_eq(name, "MESSAGE_UPDATE") {
        DispatchRoute::MessageUpdate
    } else if str_eq(name, "MESSAGE_DELETE") {
        DispatchRoute::MessageDelete
    } else if str_eq(name, "READY") {
        DispatchRoute::Ready
    } else if str_eq(name, "INTERACTION_CREATE") {
        DispatchRoute::InteractionCreate
    } else if str_eq(name, "MESSAGE_REACTION_ADD") {
        DispatchRoute::ReactionAdd
    } else if str_eq(name, "MESSAGE_REACTION_REMOVE") {
        DispatchRoute::ReactionRemove
    } else {
        DispatchRoute::Unsupported
    }
}

/// What the caller does after a payload was handled.
pub enum GatewayAction {
    Nothing,
    /// Write this text frame to the socket
    Send(String),
    /// Parse the payload's data as the routed event and hand it on
    Dispatch(DispatchRoute),
    /// Start a heartbeat every so many milliseconds
    StartHeartbeat(u64),
    /// Stop the heartbeat: the session is over
    StopHeartbeat,
}

pub enum ActionView {
    Nothing,
    Send(Seq<char>),
    Dispatch(DispatchRoute),
    StartHeartbeat(u64),
    StopHeartbeat,
}

impl View for GatewayAction {
    type V = ActionView;

    open spec fn view(&self) -> ActionView {
        match self {
            GatewayAction::Nothing => ActionView::Nothing,
            GatewayAction::Send(s) => ActionView::Send(s@),
            GatewayAction::Dispatch(r) => ActionView::Dispatch(*r),
            GatewayAction::StartHeartbeat(i) => ActionView::StartHeartbeat(*i),
            GatewayAction::StopHeartbeat => ActionView::StopHeartbeat,
        }
    }
}

/// The gateway session of the bot: its token, the session state and the
/// interval of the running heartbeat, if one runs.
pub struct Bot {
    token: String,
    state: State,
    heartbeat: Option<u64>,
}

/// The abstract value of a [`Bot`].
pub struct BotView {
    pub token: Seq<char>,
    pub state: StateView,
    pub heartbeat: Option<u64>,
}

impl View for Bot {
    type V = BotView;

    closed spec fn view(&self) -> BotView {
        BotView { token: self.token@, state: self.state@, heartbeat: self.heartbeat }
    }
}

/// A bot that has not connected yet.
pub open spec fn fresh_bot(token: Seq<char>) -> BotView {
    BotView { token, state: fresh_state(), heartbeat: None }
}

/// The heartbeat frame: opcode 1 with the last sequence number.
pub open spec fn heartbeat_text(seq: nat) -> Seq<char> {
    "{\"d\":"@ + decimal(seq) + ",\"op\":1}"@
}

/// The identify frame (opcode 2) for `token`.
pub open spec fn identify_text(token: Seq<char>) -> Seq<char> {
    "{\"d\":{\"intents\":1536,\"properties\":{\"$browser\":\"brick-bot\",\"$device\":\"brick-bot\",\"$os\":\"windows\"},\"token\":"@
        + json_string(token) + "},\"op\":2}"@
}

/// The resume frame (opcode 6) for `token`, `session` and `seq`.
pub open spec fn resume_text(token: Seq<char>, session: Seq<char>, seq: nat) -> Seq<char> {
    "{\"d\":{\"seq\":"@ + decimal(seq) + ",\"session_id\":"@ + json_string(session)
        + ",\"token\":"@ + json_string(token) + "},\"op\":6}"@
}

pub open spec fn bool_text(b: bool) -> Seq<char> {
    if b {
        "true"@
    } else {
        "false"@
    }
}

pub open spec fn activity_text(a: Activity) -> Seq<char> {
    "{\"name\":"@ + json_string(a.name@) + ",\"type\":"@ + decimal(a.activity_type as nat) + "}"@
}

/// The activities, separated by commas.
pub open spec fn activities_list_text(a: Seq<Activity>) -> Seq<char>
    decreases a.len(),
{
    if a.len() == 0 {
        Seq::empty()
    } else if a.len() == 1 {
        activity_text(a[0])
    } else {
        activities_list_text(a.drop_last()) + ","@ + activity_text(a.last())
    }
}

/// A status as JSON, its fields in the order `serde_json` sorts them.
pub open spec fn status_text(s: Status) -> Seq<char> {
    "{\"activities\":"@ + activities_text(s.activities) + ",\"afk\":"@ + bool_text(s.afk)
        + ",\"since\":"@ + since_text(s.since) + ",\"status\":"@ + json_string(
        status_type_name(s.status),
    ) + "}"@
}

/// The presence update frame (opcode 3) carrying `s`.
pub open spec fn presence_text(s: Status) -> Seq<char> {
    "{\"d\":"@ + status_text(s) + ",\"op\":3}"@
}

/// The error text of a payload with an opcode that only clients send.
pub open spec fn unexpected_opcode_text(op: Opcode) -> Seq<char> {
    "Recieved unexpected opcode: "@ + opcode_name(op)
}

/// The error text of a dispatch of a known event that holds no data.
pub open spec fn missing_data_text(name: Seq<char>) -> Seq<char> {
    "event "@ + name + " did not contain any data"@
}

/// Whether handling `p` in state `v` is defined: a resume needs a session
/// id, an invalid-session payload needs a boolean (and, when it cannot be
/// resumed, a running heartbeat to stop), a hello needs its interval.
pub open spec fn accepts(v: BotView, p: PayloadView) -> bool {
    match p.op {
        Opcode::Reconnect => v.state.session is Some,
        Opcode::InvalidSession => p.d matches Some(d) && d.as_bool matches Some(b) && (!b
            ==> v.heartbeat is Some),
        Opcode::Hello => p.d matches Some(d) && d.heartbeat_interval is Some,
        _ => true,
    }
}

/// The state after handling payload `p` in state `v`.
pub open spec fn next_bot(v: BotView, p: PayloadView) -> BotView {
    match p.op {
        Opcode::Dispatch => match p.s {
            Some(n) => BotView { state: StateView { seq: n, ..v.state }, ..v },
            None => v,
        },
        Opcode::Reconnect => BotView { state: StateView { identified: true, ..v.state }, ..v },
        Opcode::InvalidSession => if p.d->0.as_bool->0 {
            BotView { state: StateView { identified: true, ..v.state }, ..v }
        } else {
            BotView { state: StateView { open: false, ..v.state }, heartbeat: None, ..v }
        },
        Opcode::Hello => BotView {
            state: StateView { open: true, ..v.state },
            heartbeat: Some(p.d->0.heartbeat_interval->0),
            ..v
        },
        Opcode::HeartbeatAck => BotView { state: StateView { identified: true, ..v.state }, ..v },
        _ => v,
    }
}

/// What handling payload `p` in state `v` yields: an action, or the text of
/// an `ApiError`.
pub open spec fn step_output(v: BotView, p: PayloadView) -> Result<ActionView, Seq<char>> {
    match p.op {
        Opcode::Dispatch => match p.s {
            None => Err("recieved event without sequence number"@),
            Some(_) => match p.t {
                None => Err("recieved event without name"@),
                Some(name) => if route_of(name) != DispatchRoute::Unsupported && p.d is None {
                    Err(missing_data_text(name))
                } else {
                    Ok(ActionView::Dispatch(route_of(name)))
                },
            },
        },
        Opcode::Heartbeat => Ok(ActionView::Send(heartbeat_text(v.state.seq))),
        Opcode::Reconnect => Ok(
            ActionView::Send(resume_text(v.token, v.state.session->0, v.state.seq)),
        ),
        Opcode::InvalidSession => if p.d->0.as_bool->0 {
            Ok(ActionView::Send(identify_text(v.token)))
        } else {
            Ok(ActionView::StopHeartbeat)
        },
        Opcode::Hello => Ok(ActionView::StartHeartbeat(p.d->0.heartbeat_interval->0)),
        Opcode::HeartbeatAck => if !v.state.identified {
            Ok(ActionView::Send(identify_text(v.token)))
        } else {
            Ok(ActionView::Nothing)
        },
        _ => Err(unexpected_opcode_text(p.op)),
    }
}

/// `r` is what `step_output` describes.
pub open spec fn step_result_is(
    r: Result<GatewayAction, BotError>,
    expected: Result<ActionView, Seq<char>>,
) -> bool {
    match (r, expected) {
        (Ok(a), Ok(av)) => a@ == av,
        (Err(e), Err(msg)) => is_api_error(e, msg),
        _ => false,
    }
}

/// The identify frame for `token`.
fn create_identify_message(token: &String) -> (r: String)
    ensures
        r@ == identify_text(token@),
{
    let mut m = String::from_str(
        "{\"d\":{\"intents\":1536,\"properties\":{\"$browser\":\"brick-bot\",\"$device\":\"brick-bot\",\"$os\":\"windows\"},\"token\":",
    );
    push_json_string(&mut m, token.as_str());
    m.append("},\"op\":2}");
    m
}

/// The heartbeat frame for sequence number `seq`.
fn heartbeat_frame(seq: usize) -> (r: String)
    ensures
        r@ == heartbeat_text(seq as nat),
{
    let mut m = String::from_str("{\"d\":");
    push_decimal(&mut m, seq as u64);
    m.append(",\"op\":1}");
    m
}

/// Appends `a` as JSON.
fn push_activity(out: &mut String, a: &Activity)
    ensures
        final(out)@ == old(out)@ + activity_text(*a),
{
    out.append("{\"name\":");
    push_json_string(out, a.name.as_str());
    out.append(",\"type\":");
    push_decimal(out, a.activity_type as u64);
    out.append("}");
    proof {
        assert(final(out)@ =~= old(out)@ + activity_text(*a));
    }
}

/// Appends the activities `a` as a JSON array.
fn push_activities(out: &mut String, a: &Vec<Activity>)
    ensures
        final(out)@ == old(out)@ + "["@ + activities_list_text(a@) + "]"@,
{
    out.append("[");
    let ghost before = out@;
    let mut i: usize = 0;
    while i < a.len()
        invariant
            i <= a.len(),
            out@ == before + activities_list_text(a@.subrange(0, i as int)),
        decreases a.len() - i,
    {
        if i > 0 {
            out.append(",");
        }
        push_activity(out, &a[i]);
        proof {
            let t = a@.subrange(0, i + 1);
            assert(t.drop_last() =~= a@.subrange(0, i as int));
            if i == 0 {
                assert(activities_list_text(a@.subrange(0, 0)) =~= Seq::<char>::empty());
                assert(out@ =~= before + activities_list_text(t));
            } else {
                assert(out@ =~= before + activities_list_text(t));
            }
        }
        i = i + 1;
    }
    out.append("]");
    proof {
        assert(a@.subrange(0, a.len() as int) =~= a@);
    }
}

/// The JSON of the activities of a status.
pub open spec fn activities_text(a: Option<Vec<Activity>>) -> Seq<char> {
    match a {
        Some(a) => "["@ + activities_list_text(a@) + "]"@,
        None => "null"@,
    }
}

/// The JSON of the idle time of a status.
pub open spec fn since_text(since: Option<usize>) -> Seq<char> {
    match since {
        Some(n) => decimal(n as nat),
        None => "null"@,
    }
}

/// Appends the status `s` as JSON.
fn push_status(out: &mut String, s: &Status)
    ensures
        final(out)@ == old(out)@ + status_text(*s),
{
    let ghost start = out@;
    out.append("{\"activities\":");
    match &s.activities {
        Some(a) => push_activities(out, a),
        None => out.append("null"),
    }
    let ghost p1 = out@;
    assert(p1 == start + "{\"activities\":"@ + activities_text(s.activities));
    out.append(",\"afk\":");
    if s.afk {
        out.append("true");
    } else {
        out.append("false");
    }
    out.append(",\"since\":");
    match s.since {
        Some(n) => push_decimal(out, n as u64),
        None => out.append("null"),
    }
    let ghost p2 = out@;
    assert(p2 == p1 + ",\"afk\":"@ + bool_text(s.afk) + ",\"since\":"@ + since_text(s.since));
    out.append(",\"status\":");
    push_json_string(out, s.status.name());
    out.append("}");
    proof {
        assert(out@ =~= start + status_text(*s));
    }
}

impl Bot {
    pub fn token(&self) -> (r: &String)
        ensures
            r@ == self@.token,
    {
        &self.token
    }

    pub fn state(&self) -> (r: &State)
        ensures
            r@ == self@.state,
    {
        &self.state
    }

    /// The interval of the running heartbeat, if one runs.
    pub fn heartbeat(&self) -> (r: Option<u64>)
        ensures
            r == self@.heartbeat,
    {
        self.heartbeat
    }

    /// Starts a new connection: the session is reset and no heartbeat runs.
    pub fn begin_connection(&mut self)
        ensures
            final(self)@ == (BotView { state: fresh_state(), heartbeat: None, ..old(self)@ }),
    {
        self.state.reset_session();
        self.heartbeat = None;
    }

    /// Classifies a websocket message (see [`State::get_payload_from_ws_message`]).
    pub fn read_ws_message(&mut self, message: WsFrame) -> (r: FrameOutcome)
        ensures
            (message is Close) ==> final(self)@ == (BotView {
                state: StateView { open: false, ..old(self)@.state },
                ..old(self)@
            }),
            !(message is Close) ==> final(self)@ == old(self)@,
            match message {
                WsFrame::Text(s) => r matches FrameOutcome::Payload(p) && p@ == s@,
                WsFrame::Binary(_) => r matches FrameOutcome::Fatal(e) && e@
                    == "Bot recieved binary message. Binary messages are not supported"@,
                WsFrame::Close(Some(f)) => r matches FrameOutcome::Fatal(e) && e@ == close_error_text(
                    f.code,
                    f.reason@,
                ),
                _ => r is Ignored,
            },
    {
        self.state.get_payload_from_ws_message(message)
    }

    /// Reading from the socket failed: the connection is closed.
    pub fn on_socket_error(&mut self)
        ensures
            final(self)@ == (BotView {
                state: StateView { open: false, ..old(self)@.state },
                ..old(self)@
            }),
    {
        self.state.connecion_open = false;
    }

    /// The frame the heartbeat sends now: the last sequence number.
    pub fn heartbeat_message(&self) -> (r: String)
        ensures
            r@ == heartbeat_text(self@.state.seq),
    {
        heartbeat_frame(self.state.sequence_number)
    }

    /// The presence update for `status`, sent only once the bot identified itself.
    pub fn presence_update(&self, status: &Status) -> (r: Option<String>)
        ensures
            r is Some <==> self@.state.identified,
            r matches Some(m) ==> m@ == presence_text(*status),
    {
        if self.state.identified {
            let mut m = String::from_str("{\"d\":");
            push_status(&mut m, status);
            m.append(",\"op\":3}");
            Some(m)
        } else {
            None
        }
    }

    /// Records the session id of a `READY` event, for resuming later.
    pub fn on_ready(&mut self, ready: &Ready)
        ensures
            final(self)@ == (BotView {
                state: StateView { session: Some(ready.session_id@), ..old(self)@.state },
                ..old(self)@
            }),
    {
        self.state.session_id = Some(ready.session_id.clone());
    }

    /// Whether [`Bot::handle_command`] is defined on `payload` now.
    pub fn can_handle(&self, payload: &Payload<PayloadData>) -> (r: bool)
        ensures
            r == accepts(self@, payload_view(payload)),
    {
        match payload.op {
            Opcode::Reconnect => self.state.session_id.is_some(),
            Opcode::InvalidSession => match payload.d {
                Some(d) => match d.as_bool {
                    Some(b) => b || self.heartbeat.is_some(),
                    None => false,
                },
                None => false,
            },
            Opcode::Hello => match payload.d {
                Some(d) => d.heartbeat_interval.is_some(),
                None => false,
            },
            _ => true,
        }
    }

    /// Method for hadling dispatch command: records the sequence number and
    /// routes the event by its name.
    fn handle_dispatch(&mut self, payload: &Payload<PayloadData>) -> (r: Result<GatewayAction, BotError>)
        requires
            payload.op == Opcode::Dispatch,
        ensures
            final(self)@ == next_bot(old(self)@, payload_view(payload)),
            step_result_is(r, step_output(old(self)@, payload_view(payload))),
    {
        let seq_num = match payload.s {
            Some(n) => n,
            None => {
                return Err(
                    BotError::ApiError(String::from_str("recieved event without sequence number")),
                );
            },
        };
        self.state.sequence_number = seq_num;
        let event_name = match &payload.t {
            Some(t) => t,
            None => {
                return Err(BotError::ApiError(String::from_str("recieved event without name")));
            },
        };
        let route = route_event(event_name.as_str());
        if route != DispatchRoute::Unsupported && payload.d.is_none() {
            let mut text = String::from_str("event ");
            text.append(event_name.as_str());
            text.append(" did not contain any data");
            proof {
                assert(text@ =~= missing_data_text(event_name@));
            }
            return Err(BotError::ApiError(text));
        }
        Ok(GatewayAction::Dispatch(route))
    }

    /// Method for handling all commands
    pub fn handle_command(&mut self, payload: &Payload<PayloadData>) -> (r: Result<GatewayAction, BotError>)
        requires
            accepts(old(self)@, payload_view(payload)),
        ensures
            final(self)@ == next_bot(old(self)@, payload_view(payload)),
            step_result_is(r, step_output(old(self)@, payload_view(payload))),
    {
        match payload.op {
            Opcode::Dispatch => self.handle_dispatch(payload),
            Opcode::Heartbeat => {
                // send new heartbeat on request
                Ok(GatewayAction::Send(heartbeat_frame(self.state.sequence_number)))
            },
            Opcode::Reconnect => {
                // try resuming connection
                let session_id = self.state.session_id.as_ref().unwrap();
                let mut m = String::from_str("{\"d\":{\"seq\":");
                push_decimal(&mut m, self.state.sequence_number as u64);
                m.append(",\"session_id\":");
                push_json_string(&mut m, session_id.as_str());
                m.append(",\"token\":");
                push_json_string(&mut m, self.token.as_str());
                m.append("},\"op\":6}");
                proof {
                    assert(m@ =~= resume_text(self.token@, session_id@, self.state.sequence_number as nat));
                }
                self.state.identified = true;
                Ok(GatewayAction::Send(m))
            },
            Opcode::InvalidSession => {
                // check if session can be resumed
                let resumable: bool = payload.d.unwrap().as_bool.unwrap();
                if !resumable {
                    // Reset connection
                    self.heartbeat = None;
                    self.state.connecion_open = false;
                    return Ok(GatewayAction::StopHeartbeat);
                }
                // try new identification
                let m = create_identify_message(&self.token);
                self.state.identified = true;
                Ok(GatewayAction::Send(m))
            },
            Opcode::Hello => {
                // setup heartbeater on first reply
                let interval: u64 = payload.d.unwrap().heartbeat_interval.unwrap();
                self.state.connecion_open = true;
                self.heartbeat = Some(interval);
                Ok(GatewayAction::StartHeartbeat(interval))
            },
            Opcode::HeartbeatAck => {
                // on first ack send identify event
                if !self.state.identified {
                    let m = create_identify_message(&self.token);
                    self.state.identified = true;
                    Ok(GatewayAction::Send(m))
                } else {
                    Ok(GatewayAction::Nothing)
                }
            },
            _ => {
                // according to Discord API docs, these opcodes are only sent, not recieveed, so if they are recieved, there is an error/bug
                let mut text = String::from_str("Recieved unexpected opcode: ");
                text.append(payload.op.name());
                Err(BotError::ApiError(text))
            },
        }
    }
}

/// A dispatch is routed to an event only by that event's exact name; every
/// other name, however close, is an unsupported event.
pub proof fn lemma_route_exact_names(name: Seq<char>)
    ensures
        route_of(name) == DispatchRoute::MessageCreate <==> name == "MESSAGE_CREATE"@,
        route_of(name) == DispatchRoute::MessageUpdate <==> name == "MESSAGE_UPDATE"@,
        route_of(name) == DispatchRoute::MessageDelete <==> name == "MESSAGE_DELETE"@,
        route_of(name) == DispatchRoute::Ready <==> name == "READY"@,
        route_of(name) == DispatchRoute::InteractionCreate <==> name == "INTERACTION_CREATE"@,
        route_of(name) == DispatchRoute::ReactionAdd <==> name == "MESSAGE_REACTION_ADD"@,
        route_of(name) == DispatchRoute::ReactionRemove <==> name == "MESSAGE_REACTION_REMOVE"@,
        route_of(name) == DispatchRoute::Unsupported <==> !(name == "MESSAGE_CREATE"@ || name
            == "MESSAGE_UPDATE"@ || name == "MESSAGE_DELETE"@ || name == "READY"@ || name
            == "INTERACTION_CREATE"@ || name == "MESSAGE_REACTION_ADD"@ || name
            == "MESSAGE_REACTION_REMOVE"@),
{
    reveal_strlit("MESSAGE_CREATE");
    reveal_strlit("MESSAGE_UPDATE");
    reveal_strlit("MESSAGE_DELETE");
    reveal_strlit("READY");
    reveal_strlit("INTERACTION_CREATE");
    reveal_strlit("MESSAGE_REACTION_ADD");
    reveal_strlit("MESSAGE_REACTION_REMOVE");
    assert("MESSAGE_CREATE"@[8] != "MESSAGE_UPDATE"@[8]);
    assert("MESSAGE_CREATE"@[8] != "MESSAGE_DELETE"@[8]);
    assert("MESSAGE_UPDATE"@[8] != "MESSAGE_DELETE"@[8]);
    assert("MESSAGE_REACTION_ADD"@.len() != "MESSAGE_REACTION_REMOVE"@.len());
    assert("READY"@.len() != "MESSAGE_CREATE"@.len());
    assert("INTERACTION_CREATE"@.len() != "MESSAGE_CREATE"@.len());
    assert("INTERACTION_CREATE"@.len() != "READY"@.len());
    assert("MESSAGE_REACTION_ADD"@.len() != "MESSAGE_CREATE"@.len());
    assert("MESSAGE_REACTION_ADD"@.len() != "READY"@.len());
    assert("MESSAGE_REACTION_ADD"@.len() != "INTERACTION_CREATE"@.len());
    assert("MESSAGE_REACTION_REMOVE"@.len() != "MESSAGE_CREATE"@.len());
    assert("MESSAGE_REACTION_REMOVE"@.len() != "READY"@.len());
    assert("MESSAGE_REACTION_REMOVE"@.len() != "INTERACTION_CREATE"@.len());
}

/// Once the bot has identified itself, no gateway payload makes it forget
/// that; only a new connection ([`Bot::begin_connection`]) does.
pub proof fn lemma_identified_persists(v: BotView, p: PayloadView)
    requires
        v.state.identified,
    ensures
        next_bot(v, p).state.identified,
{
}

/// Only a dispatch moves the sequence number, and a dispatch that carries a
/// sequence number records it, whether or not the rest of it is valid.
pub proof fn lemma_sequence_follows_dispatch(v: BotView, p: PayloadView)
    ensures
        p.op != Opcode::Dispatch ==> next_bot(v, p).state.seq == v.state.seq,
        (p.op == Opcode::Dispatch && p.s is Some) ==> next_bot(v, p).state.seq == p.s->0,
{
}

/// A heartbeat sent after a dispatch carries that dispatch's sequence number.
pub proof fn lemma_heartbeat_after_dispatch(v: BotView, p: PayloadView, q: PayloadView)
    requires
        p.op == Opcode::Dispatch,
        p.s is Some,
        q.op == Opcode::Heartbeat,
    ensures
        step_output(next_bot(v, p), q) == Ok::<ActionView, Seq<char>>(
            ActionView::Send(heartbeat_text(p.s->0)),
        ),
{
}

/// Handling payloads never changes the token nor the session id (only a
/// `READY` event, through [`Bot::on_ready`], sets the session id).
pub proof fn lemma_token_and_session_fixed(v: BotView, p: PayloadView)
    ensures
        next_bot(v, p).token == v.token,
        next_bot(v, p).state.session == v.state.session,
{
}

/// The first heartbeat acknowledgement makes the bot identify itself; every
/// later one sends nothing, so the identify frame goes out once per session.
pub proof fn lemma_first_ack_identifies(v: BotView, p: PayloadView, q: PayloadView)
    requires
        p.op == Opcode::HeartbeatAck,
        q.op == Opcode::HeartbeatAck,
    ensures
        next_bot(v, p).state.identified,
        !v.state.identified ==> step_output(v, p) == Ok::<ActionView, Seq<char>>(
            ActionView::Send(identify_text(v.token)),
        ),
        step_output(next_bot(v, p), q) == Ok::<ActionView, Seq<char>>(ActionView::Nothing),
{
}

/// Every frame sent in answer to a payload, other than a requested
/// heartbeat, identifies or resumes the session and leaves it identified, so
/// a later acknowledgement sends nothing; a requested heartbeat changes nothing.
pub proof fn lemma_sent_frames_identify(v: BotView, p: PayloadView, q: PayloadView)
    requires
        accepts(v, p),
        q.op == Opcode::HeartbeatAck,
    ensures
        (step_output(v, p) matches Ok(ActionView::Send(_)) && p.op != Opcode::Heartbeat) ==> {
            &&& next_bot(v, p).state.identified
            &&& step_output(next_bot(v, p), q) == Ok::<ActionView, Seq<char>>(ActionView::Nothing)
        },
        (p.op == Opcode::InvalidSession && p.d->0.as_bool == Some(true)) ==> step_output(v, p)
            == Ok::<ActionView, Seq<char>>(ActionView::Send(identify_text(v.token))),
        p.op == Opcode::Heartbeat ==> next_bot(v, p) == v,
{
}

/// After a `READY` event has set session id `id`, a reconnect request is
/// answered by resuming exactly that session with the current sequence number.
pub proof fn lemma_resume_uses_ready_session(v: BotView, id: Seq<char>, p: PayloadView)
    requires
        v.state.session == Some(id),
        p.op == Opcode::Reconnect,
    ensures
        accepts(v, p),
        step_output(v, p) == Ok::<ActionView, Seq<char>>(
            ActionView::Send(resume_text(v.token, id, v.state.seq)),
        ),
        next_bot(v, p).state.identified,
{
}

/// The connection opens only on a hello and closes (through a payload) only
/// on an invalid session that cannot be resumed, which also stops the heartbeat.
pub proof fn lemma_connection_status_changes(v: BotView, p: PayloadView)
    requires
        accepts(v, p),
    ensures
        (!v.state.open && next_bot(v, p).state.open) ==> p.op == Opcode::Hello,
        (v.state.open && !next_bot(v, p).state.open) ==> (p.op == Opcode::InvalidSession
            && next_bot(v, p).heartbeat is None && step_output(v, p) == Ok::<
            ActionView,
            Seq<char>,
        >(ActionView::StopHeartbeat)),
{
}

/// Payloads with an opcode that only clients send are refused and change nothing.
pub proof fn lemma_client_opcodes_refused(v: BotView, p: PayloadView)
    requires
        p.op == Opcode::Identify || p.op == Opcode::PresenceUpdate || p.op
            == Opcode::VoiceStateUpdate || p.op == Opcode::Resume || p.op
            == Opcode::RequestGuildMembers,
    ensures
        next_bot(v, p) == v,
        step_output(v, p) == Err::<ActionView, Seq<char>>(unexpected_opcode_text(p.op)),
{
}

} // verus!
