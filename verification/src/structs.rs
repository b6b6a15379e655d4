//! Discord API objects
use vstd::prelude::*;
use vstd::string::*;

use crate::error::{is_api_error, BotError};
use crate::text::{decimal, push_decimal};

verus! {

/// A JSON value that the library carries without reading it.
#[verifier::external_type_specification]
#[verifier::external_body]
pub struct ExJsonValue(serde_json::Value);

/// `Clone` of `serde_json::Value` (a deep copy); nothing is claimed of the copy.
pub assume_specification[ <serde_json::Value as Clone>::clone ](v: &serde_json::Value) -> serde_json::Value;

#[derive(Debug, Clone)]
pub struct GuildInfo {
    pub id: String,
    pub name: String,
}

#[derive(Debug, Clone)]
pub struct Channel {
    pub id: String,
    pub name: String,
    pub channel_type: ChannelType,
    pub last_message_id: Option<String>,
}

#[derive(Debug, PartialEq, Eq, Structural, Clone, Copy)]
pub enum ChannelType {
    GuildText,
    Dm,
    Voice,
    GroupDm,
    Category,
    News,
    Store,
}

/// The number by which Discord identifies a channel type.
pub open spec fn channel_type_code(t: ChannelType) -> u8 {
    match t {
        ChannelType::GuildText => 0,
        ChannelType::Dm => 1,
        ChannelType::Voice => 2,
        ChannelType::GroupDm => 3,
        ChannelType::Category => 4,
        ChannelType::News => 5,
        ChannelType::Store => 6,
    }
}

impl ChannelType {
    /// The number by which Discord identifies this channel type.
    pub fn code(self) -> (r: u8)
        ensures
            r == channel_type_code(self),
    {
        match self {
            ChannelType::GuildText => 0,
            ChannelType::Dm => 1,
            ChannelType::Voice => 2,
            ChannelType::GroupDm => 3,
            ChannelType::Category => 4,
            ChannelType::News => 5,
            ChannelType::Store => 6,
        }
    }

    /// The channel type that Discord identifies by `code`, if any.
    pub fn from_code(code: u8) -> (r: Option<ChannelType>)
        ensures
            r matches Some(t) ==> channel_type_code(t) == code,
            r is None ==> forall|t: ChannelType| channel_type_code(t) != code,
    {
        match code {
            0 => Some(ChannelType::GuildText),
            1 => Some(ChannelType::Dm),
            2 => Some(ChannelType::Voice),
            3 => Some(ChannelType::GroupDm),
            4 => Some(ChannelType::Category),
            5 => Some(ChannelType::News),
            6 => Some(ChannelType::Store),
            _ => None,
        }
    }
}

#[derive(Debug)]
pub struct Message {
    pub id: String,
    pub channel_id: String,
    pub content: String,
    pub mentions: Vec<User>,
    pub mention_roles: Option<Vec<String>>,
    pub author: User,
    pub reactions: Option<Vec<Reaction>>,
    /// The message this one replies to, if any.
    pub referenced_message: Option<Box<Message>>,
}

#[derive(Debug, Clone)]
pub struct User {
    pub id: String,
    pub username: String,
    pub avatar: String,
}

/// The address of the avatar image of the user with id `id` and avatar hash `avatar`.
pub open spec fn avatar_url(id: Seq<char>, avatar: Seq<char>) -> Seq<char> {
    "https://cdn.discordapp.com/avatars/"@ + id + "/"@ + avatar + ".png"@
}

impl User {
    pub fn get_avatar_url(&self) -> (r: String)
        ensures
            r@ == avatar_url(self.id@, self.avatar@),
    {
        let mut url = String::from_str("https://cdn.discordapp.com/avatars/");
        url.append(self.id.as_str());
        url.append("/");
        url.append(self.avatar.as_str());
        url.append(".png");
        url
    }
}

#[derive(Debug, Clone)]
pub enum DiscordResult<T> {
    Success(T),
    Error { message: String, code: usize },
}

/// The text of the `ApiError` that an error answer of Discord becomes.
pub open spec fn api_error_text(message: Seq<char>, code: nat) -> Seq<char> {
    "Error #"@ + decimal(code) + ", "@ + message
}

/// What `r` is, given that it came from the answer `dr`.
pub open spec fn converts_discord_result<T>(dr: DiscordResult<T>, r: Result<T, BotError>) -> bool {
    match dr {
        DiscordResult::Success(v) => r matches Ok(w) && w == v,
        DiscordResult::Error { message, code } => r matches Err(e) && is_api_error(
            e,
            api_error_text(message@, code as nat),
        ),
    }
}

impl<T> DiscordResult<T> {
    /// The answer as a `Result`: its value, or an `ApiError` with its code and message.
    pub fn into_result(self) -> (r: Result<T, BotError>)
        ensures
            converts_discord_result(self, r),
    {
        match self {
            DiscordResult::Success(val) => Ok(val),
            DiscordResult::Error { message, code } => {
                let mut text = String::from_str("Error #");
                push_decimal(&mut text, code as u64);
                text.append(", ");
                text.append(message.as_str());
                proof {
                    assert(text@ =~= api_error_text(message@, code as nat));
                }
                Err(BotError::ApiError(text))
            },
        }
    }
}

impl<T> From<DiscordResult<T>> for Result<T, BotError> {
    fn from(dr: DiscordResult<T>) -> (r: Self)
        ensures
            converts_discord_result(dr, r),
    {
        dr.into_result()
    }
}

impl<T> vstd::std_specs::convert::FromSpecImpl<DiscordResult<T>> for Result<T, BotError> {
    /// The error text is built at run time, so the conversion is described by
    /// the `ensures` of `from` rather than by a spec function.
    open spec fn obeys_from_spec() -> bool {
        false
    }

    open spec fn from_spec(v: DiscordResult<T>) -> Self {
        arbitrary()
    }
}

#[derive(Debug)]
pub struct Payload<T> {
    pub op: Opcode,
    pub d: Option<T>,
    pub s: Option<usize>,
    pub t: Option<String>,
}

/// All gateway events in Discord are tagged with an opcode that denotes the payload type.
/// Your connection to our gateway may also sometimes close.
/// When it does, you will receive a close code that tells you what happened.
#[derive(Debug, Clone, PartialEq, Eq, Structural, Copy)]
pub enum Opcode {
    /// An event was dispatched.
    Dispatch,
    /// Fired periodically by the client to keep the connection alive.
    Heartbeat,
    /// Starts a new session during the initial handshake.
    Identify,
    /// Update the client's presence.
    PresenceUpdate,
    /// Used to join/leave or move between voice channels.
    VoiceStateUpdate,
    /// Resume a previous session that was disconnected.
    Resume,
    /// You should attempt to reconnect and resume immediately.
    Reconnect,
    /// Request information about offline guild members in a large guild.
    RequestGuildMembers,
    /// The session has been invalidated. You should reconnect and identify/resume accordingly.
    InvalidSession,
    /// Sent immediately after connecting, contains the heartbeat_interval to use.
    Hello,
    /// Sent in response to receiving a heartbeat to acknowledge that it has been received.
    HeartbeatAck,
}

/// The number that stands for an opcode on the wire.
pub open spec fn opcode_code(op: Opcode) -> u16 {
    match op {
        Opcode::Dispatch => 0,
        Opcode::Heartbeat => 1,
        Opcode::Identify => 2,
        Opcode::PresenceUpdate => 3,
        Opcode::VoiceStateUpdate => 4,
        Opcode::Resume => 6,
        Opcode::Reconnect => 7,
        Opcode::RequestGuildMembers => 8,
        Opcode::InvalidSession => 9,
        Opcode::Hello => 10,
        Opcode::HeartbeatAck => 11,
    }
}

/// The name of an opcode, as `{:?}` prints it.
pub open spec fn opcode_name(op: Opcode) -> Seq<char> {
    match op {
        Opcode::Dispatch => "Dispatch"@,
        Opcode::Heartbeat => "Heartbeat"@,
        Opcode::Identify => "Identify"@,
        Opcode::PresenceUpdate => "PresenceUpdate"@,
        Opcode::VoiceStateUpdate => "VoiceStateUpdate"@,
        Opcode::Resume => "Resume"@,
        Opcode::Reconnect => "Reconnect"@,
        Opcode::RequestGuildMembers => "RequestGuildMembers"@,
        Opcode::InvalidSession => "InvalidSession"@,
        Opcode::Hello => "Hello"@,
        Opcode::HeartbeatAck => "HeartbeatAck"@,
    }
}

impl Opcode {
    /// The number that stands for this opcode on the wire.
    pub fn code(self) -> (r: u16)
        ensures
            r == opcode_code(self),
    {
        match self {
            Opcode::Dispatch => 0,
            Opcode::Heartbeat => 1,
            Opcode::Identify => 2,
            Opcode::PresenceUpdate => 3,
            Opcode::VoiceStateUpdate => 4,
            Opcode::Resume => 6,
            Opcode::Reconnect => 7,
            Opcode::RequestGuildMembers => 8,
            Opcode::InvalidSession => 9,
            Opcode::Hello => 10,
            Opcode::HeartbeatAck => 11,
        }
    }

    /// The opcode that `code` stands for on the wire, if any.
    pub fn from_code(code: u16) -> (r: Option<Opcode>)
        ensures
            r matches Some(op) ==> opcode_code(op) == code,
            r is None ==> forall|op: Opcode| opcode_code(op) != code,
    {
        match code {
            0 => Some(Opcode::Dispatch),
            1 => Some(Opcode::Heartbeat),
            2 => Some(Opcode::Identify),
            3 => Some(Opcode::PresenceUpdate),
            4 => Some(Opcode::VoiceStateUpdate),
            6 => Some(Opcode::Resume),
            7 => Some(Opcode::Reconnect),
            8 => Some(Opcode::RequestGuildMembers),
            9 => Some(Opcode::InvalidSession),
            10 => Some(Opcode::Hello),
            11 => Some(Opcode::HeartbeatAck),
            _ => None,
        }
    }

    /// The name of this opcode, as `{:?}` prints it.
    pub fn name(self) -> (r: &'static str)
        ensures
            r@ == opcode_name(self),
    {
        match self {
            Opcode::Dispatch => {
                proof { reveal_strlit("Dispatch"); }
                "Dispatch"
            },
            Opcode::Heartbeat => {
                proof { reveal_strlit("Heartbeat"); }
                "Heartbeat"
            },
            Opcode::Identify => {
                proof { reveal_strlit("Identify"); }
                "Identify"
            },
            Opcode::PresenceUpdate => {
                proof { reveal_strlit("PresenceUpdate"); }
                "PresenceUpdate"
            },
            Opcode::VoiceStateUpdate => {
                proof { reveal_strlit("VoiceStateUpdate"); }
                "VoiceStateUpdate"
            },
            Opcode::Resume => {
                proof { reveal_strlit("Resume"); }
                "Resume"
            },
            Opcode::Reconnect => {
                proof { reveal_strlit("Reconnect"); }
                "Reconnect"
            },
            Opcode::RequestGuildMembers => {
                proof { reveal_strlit("RequestGuildMembers"); }
                "RequestGuildMembers"
            },
            Opcode::InvalidSession => {
                proof { reveal_strlit("InvalidSession"); }
                "InvalidSession"
            },
            Opcode::Hello => {
                proof { reveal_strlit("Hello"); }
                "Hello"
            },
            Opcode::HeartbeatAck => {
                proof { reveal_strlit("HeartbeatAck"); }
                "HeartbeatAck"
            },
        }
    }
}

#[derive(Debug, Clone)]
pub struct Ready {
    pub session_id: String,
    pub user: User,
}

#[derive(Debug)]
pub enum DiscordEvent {
    MessageCreate(Message),
    MessageUpdate(Message),
    MessageDelete(MessageDeleteResponse),
    Ready(Ready),
    InteractionCreate(Interaction),
    ReactionAdd(ReactionAddResponse),
    ReactionRemove(ReactionRemoveResponse),
}

#[derive(Debug, Clone)]
pub struct MessageDeleteResponse {
    pub id: String,
    pub channel_id: String,
    pub guild_id: String,
}

#[derive(Debug, Clone)]
pub struct Interaction {
    pub id: String,
    pub guild_id: String,
    pub channel_id: String,
    pub token: String,
    pub member: serde_json::Value,
    pub data: serde_json::Value,
}

#[derive(Debug, Clone)]
pub struct ReactionAddResponse {
    pub user_id: String,
    pub channel_id: String,
    pub message_id: String,
    pub guild_id: Option<String>,
    pub emoji: Emoji,
}

#[derive(Debug, Clone)]
pub struct ReactionRemoveResponse {
    pub user_id: String,
    pub channel_id: String,
    pub message_id: String,
    pub guild_id: Option<String>,
    pub emoji: Emoji,
}

#[derive(Debug, Clone)]
pub struct Reaction {
    pub emoji: Emoji,
    pub count: usize,
    pub me: bool,
}

#[derive(Debug, Clone)]
pub struct Emoji {
    pub id: Option<String>,
    pub name: String,
}

#[derive(Debug, Clone)]
pub struct Status {
    pub status: StatusType,
    pub activities: Option<Vec<Activity>>,
    pub afk: bool,
    pub since: Option<usize>,
}

impl Status {
    /// A status of type `status_type` with one activity of type 0 named `name`,
    /// not away, with no idle time.
    pub fn new(status_type: StatusType, name: &str) -> (r: Self)
        ensures
            r.status == status_type,
            r.activities matches Some(a) && a.len() == 1 && a[0].name@ == name@ && a[0].activity_type
                == 0,
            !r.afk,
            r.since is None,
    {
        let mut activities: Vec<Activity> = Vec::new();
        activities.push(Activity { name: String::from_str(name), activity_type: 0 });
        Self { status: status_type, activities: Some(activities), afk: false, since: None }
    }
}

#[derive(Debug, Clone, Copy, PartialEq, Eq, Structural)]
pub enum StatusType {
    Online,
    DoNotDisturb,
    Idle,
    Invisible,
    Offline,
}

/// The name by which Discord knows a status type.
pub open spec fn status_type_name(t: StatusType) -> Seq<char> {
    match t {
        StatusType::Online => "online"@,
        StatusType::DoNotDisturb => "dnd"@,
        StatusType::Idle => "idle"@,
        StatusType::Invisible => "invisible"@,
        StatusType::Offline => "offline"@,
    }
}

impl StatusType {
    /// The name by which Discord knows this status type.
    pub fn name(self) -> (r: &'static str)
        ensures
            r@ == status_type_name(self),
    {
        match self {
            StatusType::Online => {
                proof { reveal_strlit("online"); }
                "online"
            },
            StatusType::DoNotDisturb => {
                proof { reveal_strlit("dnd"); }
                "dnd"
            },
            StatusType::Idle => {
                proof { reveal_strlit("idle"); }
                "idle"
            },
            StatusType::Invisible => {
                proof { reveal_strlit("invisible"); }
                "invisible"
            },
            StatusType::Offline => {
                proof { reveal_strlit("offline"); }
                "offline"
            },
        }
    }
}

#[derive(Debug, Clone)]
pub struct Activity {
    pub name: String,
    pub activity_type: usize,
}

} // verus!
