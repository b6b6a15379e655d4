//! Brick-bot configuration: the values that the bot's decisions read.
use vstd::prelude::*;
use vstd::string::*;

verus! {

/// Where a command's keyword must stand in a message to trigger it.
#[derive(Debug, Clone, Copy, PartialEq, Eq, Structural)]
pub enum KeywordPosition {
    /// The message must start with the keyword.
    Start,
    /// The keyword may stand anywhere in the message.
    Everywhere,
}

/// A command that answers a keyword with a text reply.
#[derive(Debug, Clone)]
pub struct ReplyConfig {
    /// Keyword that triggers the reply (compared with the lower-cased message)
    pub keyword: String,
    pub position: KeywordPosition,
    /// Text of the reply
    pub reply: String,
    /// If `Some`, only these users (by user name) get a reply
    pub whitelist: Option<Vec<String>>,
}

/// A command that answers a keyword (or a reaction) with a composited gif.
#[derive(Debug, Clone)]
pub struct GifReplyConfig {
    /// Keyword that triggers the gif (compared with the lower-cased message)
    pub keyword: String,
    pub position: KeywordPosition,
    /// Gif will be sent with this name to guild
    pub image_name: String,
    /// If `Some`, bot will respond with this message if it is the target
    pub self_tag_message: Option<String>,
    /// If `Some`, a reaction with this emoji on a message triggers the gif too
    pub emoji: Option<String>,
}

/// One configured command.
#[derive(Debug, Clone)]
pub enum Command {
    Reply(ReplyConfig),
    GifReply(GifReplyConfig),
}

/// Brick-bot configuration storage
#[derive(Debug, Clone)]
pub struct Config {
    /// Token to use when communicationg with Discord API
    pub token: String,
    /// Main command to listen to
    pub command: String,
    /// If `Some`, bot will respond with this message if mentioned
    pub self_brick_message: Option<String>,
    /// Error text sent on incorrect usage
    pub err_msg_tag_role: String,
    /// Error text sent on incorrect usage
    pub err_msg_tag_nobody: String,
    /// If true, bot will use alpha channel of player avatar on compositing
    pub use_avatar_alpha: bool,
    /// Gif will be sent with this name to guild
    pub image_name: String,
    /// Configured commands, by name
    pub commands: Vec<(String, Command)>,
}

/// Default text of the error sent when a role is tagged.
pub fn tag_role_msg() -> (r: String)
    ensures
        r@ == "Error, tag user, not role"@,
{
    String::from_str("Error, tag user, not role")
}

/// Default text of the error sent when nobody is tagged.
pub fn tag_nobody() -> (r: String)
    ensures
        r@ == "Error, tag user"@,
{
    String::from_str("Error, tag user")
}

/// Default name of the sent gif.
pub fn image_name() -> (r: String)
    ensures
        r@ == "brick.gif"@,
{
    String::from_str("brick.gif")
}

/// By default the avatar's alpha channel is used.
pub fn avatar_alpha() -> (r: bool)
    ensures
        r,
{
    true
}

} // verus!
