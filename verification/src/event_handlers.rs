//! The decisions of the brick bot: which commands a message or a reaction
//! triggers, whom to answer, and with what. Sending the answers is the
//! caller's part.
use vstd::prelude::*;
use vstd::string::*;

use chrono::Datelike;

use crate::config::{Config, GifReplyConfig, KeywordPosition, ReplyConfig};
use crate::rest::{bot_authorization, MessageDraft, NewMessageBuilder};
use crate::structs::{Message, Reaction, ReactionAddResponse, User};
use crate::text::{contains, has_prefix, has_substring, starts_with, str_eq};

verus! {

/// The lower-case mapping of a text, as `str::to_lowercase` computes it.
pub uninterp spec fn lowercase(s: Seq<char>) -> Seq<char>;

/// `str::to_lowercase`: maps every character to its lower-case form (with
/// the context rule for the Greek final sigma). The result is only named,
/// as `lowercase` of the argument; nothing else is claimed of it.
#[verifier::external_body]
fn to_lowercase(s: &str) -> (r: String)
    ensures
        r@ == lowercase(s@),
{
    s.to_lowercase()
}

/// Whether `keyword` stands in `content` where `position` asks for it.
pub open spec fn keyword_found(content: Seq<char>, keyword: Seq<char>, position: KeywordPosition) -> bool {
    match position {
        KeywordPosition::Start => has_prefix(content, keyword),
        KeywordPosition::Everywhere => has_substring(content, keyword),
    }
}

/// Whether `keyword` stands in the (already lower-cased) text `lowered` where `position` asks for it.
pub fn keyword_matches(lowered: &str, keyword: &str, position: KeywordPosition) -> (r: bool)
    ensures
        r == keyword_found(lowered@, keyword@, position),
{
    match position {
        KeywordPosition::Start => starts_with(lowered, keyword),
        KeywordPosition::Everywhere => contains(lowered, keyword),
    }
}

/// Whether a message with text `content` triggers a command: its
/// lower-cased text holds the keyword where the command asks for it.
pub fn should_invoke(content: &str, keyword: &str, position: KeywordPosition) -> (r: bool)
    ensures
        r == keyword_found(lowercase(content@), keyword@, position),
{
    let lowered = to_lowercase(content);
    keyword_matches(lowered.as_str(), keyword, position)
}

pub open spec fn strings_view(v: Seq<String>) -> Seq<Seq<char>> {
    v.map_values(|s: String| s@)
}

/// Whether user `name` may get a reply: everyone may without a whitelist.
pub open spec fn whitelisted(whitelist: Option<Vec<String>>, name: Seq<char>) -> bool {
    match whitelist {
        Some(w) => strings_view(w@).contains(name),
        None => true,
    }
}

/// A reply to `message_id` in channel `channel` with text `text`, sent with `token`.
pub open spec fn reply_draft(token: Seq<char>, channel: Seq<char>, message_id: Seq<char>, text: Seq<char>) -> MessageDraft {
    MessageDraft {
        channel,
        token: bot_authorization(token),
        message: Some(text),
        reply_id: Some(message_id),
        file: None,
    }
}

/// A message in channel `channel` carrying file `gif` named `name`, sent with `token`.
pub open spec fn gif_draft(token: Seq<char>, channel: Seq<char>, gif: Seq<u8>, name: Seq<char>) -> MessageDraft {
    MessageDraft {
        channel,
        token: bot_authorization(token),
        message: None,
        reply_id: None,
        file: Some((gif, name)),
    }
}

/// A reply with `text` to `message`.
pub fn reply_message(config: &Config, message: &Message, text: &str) -> (r: NewMessageBuilder)
    ensures
        r@ == reply_draft(config.token@, message.channel_id@, message.id@, text@),
{
    NewMessageBuilder::new(config.token.as_str(), message.channel_id.as_str()).message(text).reply_to(
        message.id.as_str(),
    )
}

/// A message in the channel of `message` that carries `gif` named `name`.
pub fn gif_message(config: &Config, message: &Message, gif: Vec<u8>, name: &str) -> (r: NewMessageBuilder)
    ensures
        r@ == gif_draft(config.token@, message.channel_id@, gif@, name@),
{
    NewMessageBuilder::new(config.token.as_str(), message.channel_id.as_str()).file_with_filename(
        gif,
        name,
    )
}

/// Whether a name is in a list of names.
fn list_contains(list: &Vec<String>, name: &str) -> (r: bool)
    ensures
        r == strings_view(list@).contains(name@),
{
    let mut i: usize = 0;
    while i < list.len()
        invariant
            i <= list.len(),
            forall|j: int| 0 <= j < i ==> list@[j]@ != name@,
        decreases list.len() - i,
    {
        if str_eq(list[i].as_str(), name) {
            proof {
                assert(strings_view(list@)[i as int] == name@);
            }
            return true;
        }
        i = i + 1;
    }
    proof {
        if strings_view(list@).contains(name@) {
            let j = choose|j: int| 0 <= j < strings_view(list@).len() && strings_view(list@)[j] == name@;
            assert(list@[j]@ == name@);
        }
    }
    false
}

/// Whether a text command answers `message`: it is not the bot's own, its
/// author is whitelisted, and its lower-cased text holds the keyword.
pub open spec fn text_reply_due(message: Message, bot_id: Seq<char>, rc: ReplyConfig) -> bool {
    &&& message.author.id@ != bot_id
    &&& whitelisted(rc.whitelist, message.author.username@)
    &&& keyword_found(lowercase(message.content@), rc.keyword@, rc.position)
}

/// The reply of a text command to `message`, if the command answers it.
pub fn reply_to_message(message: &Message, config: &Config, bot_id: &str, reply_config: &ReplyConfig) -> (r: Option<NewMessageBuilder>)
    ensures
        r is Some <==> text_reply_due(*message, bot_id@, *reply_config),
        r matches Some(b) ==> b@ == reply_draft(
            config.token@,
            message.channel_id@,
            message.id@,
            reply_config.reply@,
        ),
{
    if str_eq(message.author.id.as_str(), bot_id) {
        return None;
    }
    let is_user_target = match &reply_config.whitelist {
        Some(users) => list_contains(users, message.author.username.as_str()),
        None => true,
    };
    if !is_user_target {
        return None;
    }
    if !should_invoke(message.content.as_str(), reply_config.keyword.as_str(), reply_config.position) {
        return None;
    }
    Some(reply_message(config, message, reply_config.reply.as_str()))
}

/// What a gif command does for one mentioned user.
#[derive(Debug, Clone, Copy, PartialEq, Eq, Structural)]
pub enum GifTarget {
    /// The bot itself is mentioned: reply with the command's self message
    SelfReply,
    /// Send the gif composited with the avatar of the mention at this position
    Brick(usize),
}

/// What a gif command does for the first `n` mentions: a mention of the
/// author of the replied-to message is skipped, a mention of the bot gets
/// the self message (when there is one), every other one gets a gif.
pub open spec fn gif_targets(
    mentions: Seq<User>,
    n: nat,
    referenced_author: Option<Seq<char>>,
    bot_id: Seq<char>,
    has_self_message: bool,
) -> Seq<GifTarget>
    decreases n,
{
    if n == 0 {
        Seq::empty()
    } else {
        let prev = gif_targets(mentions, (n - 1) as nat, referenced_author, bot_id, has_self_message);
        let u = mentions[n - 1];
        if referenced_author == Some(u.id@) {
            prev
        } else if u.id@ == bot_id && has_self_message {
            prev.push(GifTarget::SelfReply)
        } else {
            prev.push(GifTarget::Brick((n - 1) as usize))
        }
    }
}

/// A mention of the author of the replied-to message adds no answer,
/// whoever that author is (the bot included).
pub proof fn lemma_replied_author_skipped(
    mentions: Seq<User>,
    k: nat,
    referenced_author: Option<Seq<char>>,
    bot_id: Seq<char>,
    has_self_message: bool,
)
    requires
        k < mentions.len(),
        referenced_author == Some(mentions[k as int].id@),
    ensures
        gif_targets(mentions, k + 1, referenced_author, bot_id, has_self_message) == gif_targets(
            mentions,
            k,
            referenced_author,
            bot_id,
            has_self_message,
        ),
{
}

/// What each answer of a gif command is for: a gif goes to a mention that is
/// neither the replied-to author nor (when there is a self message) the bot;
/// the self message answers a mention of the bot that is not the replied-to
/// author; every mention of anyone else gets its gif; answers keep the order
/// of the mentions and there is at most one per mention.
pub proof fn lemma_gif_targets_answer_mentions(
    mentions: Seq<User>,
    n: nat,
    referenced_author: Option<Seq<char>>,
    bot_id: Seq<char>,
    has_self_message: bool,
)
    requires
        n <= mentions.len(),
        n <= usize::MAX,
    ensures
        ({
            let t = gif_targets(mentions, n, referenced_author, bot_id, has_self_message);
            &&& t.len() <= n
            &&& forall|x: int| 0 <= x < t.len() ==> match #[trigger] t[x] {
                GifTarget::Brick(i) => i < n && referenced_author != Some(mentions[i as int].id@) && !(
                mentions[i as int].id@ == bot_id && has_self_message),
                GifTarget::SelfReply => has_self_message && referenced_author != Some(bot_id),
            }
            &&& forall|i: int|
                0 <= i < n && referenced_author != Some(mentions[i].id@) && !(mentions[i].id@
                    == bot_id && has_self_message) ==> #[trigger] t.contains(GifTarget::Brick(i as usize))
            &&& forall|x: int, y: int|
                0 <= x < y < t.len() && t[x] is Brick && t[y] is Brick ==> (#[trigger] t[x])->0 < (
                #[trigger] t[y])->0
        }),
    decreases n,
{
    if n > 0 {
        let m = (n - 1) as nat;
        lemma_gif_targets_answer_mentions(mentions, m, referenced_author, bot_id, has_self_message);
        let prev = gif_targets(mentions, m, referenced_author, bot_id, has_self_message);
        let t = gif_targets(mentions, n, referenced_author, bot_id, has_self_message);
        assert forall|i: int|
            0 <= i < n && referenced_author != Some(mentions[i].id@) && !(mentions[i].id@ == bot_id
                && has_self_message) implies #[trigger] t.contains(GifTarget::Brick(i as usize)) by {
            if i < m {
                assert(prev.contains(GifTarget::Brick(i as usize)));
                let x = choose|x: int| 0 <= x < prev.len() && prev[x] == GifTarget::Brick(i as usize);
                assert(t[x] == prev[x]);
            } else {
                assert(t[t.len() - 1] == GifTarget::Brick(i as usize));
            }
        }
    }
}

/// The author of the message that `message` replies to, if any.
pub open spec fn referenced_author(message: Message) -> Option<Seq<char>> {
    match message.referenced_message {
        Some(m) => Some(m.author.id@),
        None => None,
    }
}

/// What a triggered gif command does for `message`.
pub struct GifReplyPlan {
    /// The error reply to send first, when nobody is mentioned
    pub error_reply: Option<String>,
    /// What to do for the mentions, in order
    pub targets: Vec<GifTarget>,
}

/// The error text for a message without mentions: a tagged role, or nobody tagged.
pub open spec fn mention_error(message: Message, config: Config) -> Seq<char> {
    if message.mention_roles matches Some(r) && r.len() > 0 {
        config.err_msg_tag_role@
    } else {
        config.err_msg_tag_nobody@
    }
}

/// Whether a gif command is triggered by `message`.
pub open spec fn gif_reply_due(message: Message, gc: GifReplyConfig) -> bool {
    keyword_found(lowercase(message.content@), gc.keyword@, gc.position)
}

/// What a gif command does for `message`: nothing if its keyword is not
/// there; else an error reply when nobody is mentioned, and one answer per
/// mention (see [`gif_targets`]).
pub fn reply_with_gif(message: &Message, config: &Config, bot_id: &str, gif_config: &GifReplyConfig) -> (r: Option<GifReplyPlan>)
    ensures
        r is Some <==> gif_reply_due(*message, *gif_config),
        r matches Some(plan) ==> {
            &&& (plan.error_reply is Some <==> message.mentions.len() == 0)
            &&& (plan.error_reply matches Some(e) ==> e@ == mention_error(*message, *config))
            &&& plan.targets@ == gif_targets(
                message.mentions@,
                message.mentions.len() as nat,
                referenced_author(*message),
                bot_id@,
                gif_config.self_tag_message is Some,
            )
        },
{
    if !should_invoke(message.content.as_str(), gif_config.keyword.as_str(), gif_config.position) {
        return None;
    }
    let error_reply = mention_error_reply(message, config);
    let referenced: Option<&str> = match &message.referenced_message {
        Some(msg) => Some(msg.author.id.as_str()),
        None => None,
    };
    let targets = plan_targets(
        &message.mentions,
        referenced,
        bot_id,
        gif_config.self_tag_message.is_some(),
    );
    Some(GifReplyPlan { error_reply, targets })
}

/// The error reply for a message that mentions nobody, if it does.
fn mention_error_reply(message: &Message, config: &Config) -> (r: Option<String>)
    ensures
        r is Some <==> message.mentions.len() == 0,
        r matches Some(e) ==> e@ == mention_error(*message, *config),
{
    // send error messeage
    if message.mentions.len() == 0 {
        match &message.mention_roles {
            Some(roles) => {
                if roles.len() > 0 {
                    Some(config.err_msg_tag_role.clone())
                } else {
                    Some(config.err_msg_tag_nobody.clone())
                }
            },
            None => Some(config.err_msg_tag_nobody.clone()),
        }
    } else {
        None
    }
}

pub open spec fn opt_str_view(o: Option<&str>) -> Option<Seq<char>> {
    match o {
        Some(s) => Some(s@),
        None => None,
    }
}

/// What to do for each of `mentions` (see [`gif_targets`]).
fn plan_targets(mentions: &Vec<User>, referenced: Option<&str>, bot_id: &str, has_self_message: bool) -> (r: Vec<GifTarget>)
    ensures
        r@ == gif_targets(mentions@, mentions.len() as nat, opt_str_view(referenced), bot_id@, has_self_message),
{
    let mut targets: Vec<GifTarget> = Vec::new();
    let mut i: usize = 0;
    while i < mentions.len()
        invariant
            i <= mentions.len(),
            targets@ == gif_targets(mentions@, i as nat, opt_str_view(referenced), bot_id@, has_self_message),
        decreases mentions.len() - i,
    {
        let user = &mentions[i];
        let skip = match referenced {
            Some(author) => str_eq(user.id.as_str(), author),
            None => false,
        };
        if !skip {
            if has_self_message && str_eq(user.id.as_str(), bot_id) {
                targets.push(GifTarget::SelfReply);
            } else {
                targets.push(GifTarget::Brick(i));
            }
        }
        i = i + 1;
    }
    targets
}

/// What the brick command of the single-command bot does for `message`:
/// nothing unless the text starts with the command (case counts); else an
/// error reply when nobody is mentioned, the self message for a mention of
/// the bot (when configured), and a gif for every other mention.
pub fn plan_brick_command(message: &Message, config: &Config, my_id: &str) -> (r: Option<GifReplyPlan>)
    ensures
        r is Some <==> has_prefix(message.content@, config.command@),
        r matches Some(plan) ==> {
            &&& (plan.error_reply is Some <==> message.mentions.len() == 0)
            &&& (plan.error_reply matches Some(e) ==> e@ == mention_error(*message, *config))
            &&& plan.targets@ == gif_targets(
                message.mentions@,
                message.mentions.len() as nat,
                None,
                my_id@,
                config.self_brick_message is Some,
            )
        },
{
    if !starts_with(message.content.as_str(), config.command.as_str()) {
        return None;
    }
    let error_reply = mention_error_reply(message, config);
    let targets = plan_targets(&message.mentions, None, my_id, config.self_brick_message.is_some());
    Some(GifReplyPlan { error_reply, targets })
}

/// What a gif command does for a reaction to a message.
#[derive(Debug, Clone, Copy, PartialEq, Eq, Structural)]
pub enum ReactionPlan {
    /// The reaction does not trigger the command
    Ignore,
    /// The message is the bot's own: reply with the command's self message
    SelfReply,
    /// Send the gif composited with the avatar of the message's author
    Brick,
}

/// The count of the first reaction of `rs` with emoji `emoji`, if there is one.
pub open spec fn first_reaction_count(rs: Seq<Reaction>, emoji: Seq<char>) -> Option<usize>
    decreases rs.len(),
{
    if rs.len() == 0 {
        None
    } else if rs[0].emoji.name@ == emoji {
        Some(rs[0].count)
    } else {
        first_reaction_count(rs.drop_first(), emoji)
    }
}

/// Whether the reactions of a message show that the emoji was used more
/// than once (then the command already answered, or will not).
pub open spec fn reaction_repeated(reactions: Option<Vec<Reaction>>, emoji: Seq<char>) -> bool {
    match reactions {
        Some(rs) => first_reaction_count(rs@, emoji) matches Some(c) && c != 1,
        None => false,
    }
}

/// What a gif command does for reaction `reaction` to `message`.
pub open spec fn reaction_plan(
    reaction: ReactionAddResponse,
    message: Message,
    bot_id: Seq<char>,
    gc: GifReplyConfig,
) -> ReactionPlan {
    match gc.emoji {
        None => ReactionPlan::Ignore,
        Some(e) => if reaction.emoji.name@ != e@ || reaction_repeated(message.reactions, e@) {
            ReactionPlan::Ignore
        } else if message.author.id@ == bot_id && gc.self_tag_message is Some {
            ReactionPlan::SelfReply
        } else {
            ReactionPlan::Brick
        },
    }
}

/// The count of the first reaction of `rs` with emoji `emoji`, if there is one.
fn find_reaction_count(rs: &Vec<Reaction>, emoji: &str) -> (r: Option<usize>)
    ensures
        r == first_reaction_count(rs@, emoji@),
{
    let mut i: usize = 0;
    assert(rs@.subrange(0, rs.len() as int) =~= rs@);
    while i < rs.len()
        invariant
            i <= rs.len(),
            first_reaction_count(rs@, emoji@) == first_reaction_count(
                rs@.subrange(i as int, rs.len() as int),
                emoji@,
            ),
        decreases rs.len() - i,
    {
        let ghost rest = rs@.subrange(i as int, rs.len() as int);
        assert(rest[0] == rs@[i as int]);
        if str_eq(rs[i].emoji.name.as_str(), emoji) {
            return Some(rs[i].count);
        }
        assert(rest.drop_first() =~= rs@.subrange(i + 1, rs.len() as int));
        i = i + 1;
    }
    proof {
        assert(rs@.subrange(i as int, rs.len() as int).len() == 0);
    }
    None
}

/// What a gif command does for reaction `reaction` to `message`.
pub fn reply_to_reaction(
    reaction: &ReactionAddResponse,
    message: &Message,
    bot_id: &str,
    gif_config: &GifReplyConfig,
) -> (r: ReactionPlan)
    ensures
        r == reaction_plan(*reaction, *message, bot_id@, *gif_config),
{
    let emoji = match &gif_config.emoji {
        Some(emoji) => emoji,
        None => return ReactionPlan::Ignore,
    };
    if !str_eq(reaction.emoji.name.as_str(), emoji.as_str()) {
        return ReactionPlan::Ignore;
    }
    // check if there is only one reaction
    if let Some(reactions) = &message.reactions {
        if let Some(count) = find_reaction_count(reactions, emoji.as_str()) {
            if count != 1 {
                return ReactionPlan::Ignore;
            }
        }
    }
    if str_eq(message.author.id.as_str(), bot_id) && gif_config.self_tag_message.is_some() {
        return ReactionPlan::SelfReply;
    }
    ReactionPlan::Brick
}

/// A day of the week.
#[derive(Debug, Clone, Copy, PartialEq, Eq, Structural)]
pub enum Weekday {
    Mon,
    Tue,
    Wed,
    Thu,
    Fri,
    Sat,
    Sun,
}

/// The activity text shown for random number `num` on day `day`.
pub open spec fn status_message(num: u32, day: Weekday) -> Seq<char> {
    if num % 1000 == 0 {
        "THE GAME"@
    } else if num % 1000 == 1 {
        "opli je debílek"@
    } else if num % 1000 == 2 {
        "to mu je teda"@
    } else {
        match day {
            Weekday::Wed => "it's wednesday my dudes"@,
            Weekday::Thu => "posere tě krtek"@,
            _ => "with 🧱"@,
        }
    }
}

/// The activity text shown for random number `num` on day `day`.
pub fn select_message_for(num: u32, day: Weekday) -> (r: &'static str)
    ensures
        r@ == status_message(num, day),
{
    match num % 1000 {
        0 => "THE GAME",
        1 => "opli je debílek",
        2 => "to mu je teda",
        _ => match day {
            Weekday::Wed => "it's wednesday my dudes",
            Weekday::Thu => "posere tě krtek",
            _ => "with 🧱",
        },
    }
}

/// `rand::random::<u32>()`: a random number; nothing is claimed of it.
#[verifier::external_body]
fn random_u32() -> u32 {
    rand::random::<u32>()
}

/// `chrono::Local::now().weekday()`: today's day of the week in the local
/// time zone, as a [`Weekday`]; nothing is claimed of which day it is.
#[verifier::external_body]
fn local_weekday() -> Weekday {
    match chrono::Local::now().weekday() {
        chrono::Weekday::Mon => Weekday::Mon,
        chrono::Weekday::Tue => Weekday::Tue,
        chrono::Weekday::Wed => Weekday::Wed,
        chrono::Weekday::Thu => Weekday::Thu,
        chrono::Weekday::Fri => Weekday::Fri,
        chrono::Weekday::Sat => Weekday::Sat,
        chrono::Weekday::Sun => Weekday::Sun,
    }
}

/// The activity text for today and a fresh random number.
pub fn select_message() -> (r: &'static str)
    ensures
        exists|num: u32, day: Weekday| r@ == status_message(num, day),
{
    let day = local_weekday();
    let num = random_u32();
    select_message_for(num, day)
}

} // verus!
