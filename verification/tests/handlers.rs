use brick_bot::config::{Config, GifReplyConfig, KeywordPosition, ReplyConfig};
use brick_bot::event_handlers::{
    keyword_matches, plan_brick_command, reply_to_message, reply_to_reaction, reply_with_gif,
    select_message, select_message_for, should_invoke, GifTarget, ReactionPlan, Weekday,
};
use brick_bot::image_edit::{can_choose_keyframes, choose_keyframes, parse_usize_str, KeyframeChoice};
use brick_bot::rest::RequestBody;
use brick_bot::structs::{Emoji, Message, Reaction, ReactionAddResponse, User};

fn user(id: &str, name: &str) -> User {
    User { id: id.to_string(), username: name.to_string(), avatar: "av".to_string() }
}

fn message(content: &str, author: User, mentions: Vec<User>) -> Message {
    Message {
        id: "m1".to_string(),
        channel_id: "c1".to_string(),
        content: content.to_string(),
        mentions,
        mention_roles: None,
        author,
        reactions: None,
        referenced_message: None,
    }
}

fn config() -> Config {
    Config {
        token: "tok".to_string(),
        command: "!brick".to_string(),
        self_brick_message: Some("no u".to_string()),
        err_msg_tag_role: "Error, tag user, not role".to_string(),
        err_msg_tag_nobody: "Error, tag user".to_string(),
        use_avatar_alpha: true,
        image_name: "brick.gif".to_string(),
        commands: vec![],
    }
}

fn gif_config(emoji: Option<&str>, self_msg: Option<&str>) -> GifReplyConfig {
    GifReplyConfig {
        keyword: "brick".to_string(),
        position: KeywordPosition::Start,
        image_name: "brick.gif".to_string(),
        self_tag_message: self_msg.map(|s| s.to_string()),
        emoji: emoji.map(|s| s.to_string()),
    }
}

#[test]
fn keyword_positions() {
    assert!(should_invoke("BRICK him", "brick", KeywordPosition::Start));
    assert!(!should_invoke("please BRICK him", "brick", KeywordPosition::Start));
    assert!(should_invoke("please BRICK him", "brick", KeywordPosition::Everywhere));
    assert!(keyword_matches("brick", "brick", KeywordPosition::Start));
    assert!(!keyword_matches("BRICK", "brick", KeywordPosition::Everywhere));
}

#[test]
fn text_reply_rules() {
    let cfg = config();
    let rc = ReplyConfig {
        keyword: "ping".to_string(),
        position: KeywordPosition::Everywhere,
        reply: "pong".to_string(),
        whitelist: Some(vec!["alice".to_string()]),
    };
    let m = message("say PING", user("2", "alice"), vec![]);
    let r = reply_to_message(&m, &cfg, "bot", &rc).unwrap().into_request().unwrap();
    assert_eq!(r.url, "https://discord.com/api/channels/c1/messages");
    match r.body {
        RequestBody::Json(j) => assert_eq!(j, r#"{"content":"pong","message_reference":{"message_id":"m1"}}"#),
        _ => panic!(),
    }
    assert!(reply_to_message(&message("say PING", user("3", "bob"), vec![]), &cfg, "bot", &rc).is_none());
    assert!(reply_to_message(&message("say PING", user("bot", "alice"), vec![]), &cfg, "bot", &rc).is_none());
    assert!(reply_to_message(&message("say pang", user("2", "alice"), vec![]), &cfg, "bot", &rc).is_none());
    let open = ReplyConfig { whitelist: None, ..rc };
    assert!(reply_to_message(&message("ping", user("3", "bob"), vec![]), &cfg, "bot", &open).is_some());
}

#[test]
fn gif_reply_plans() {
    let cfg = config();
    let gc = gif_config(None, Some("not me"));
    assert!(reply_with_gif(&message("hello", user("1", "a"), vec![]), &cfg, "bot", &gc).is_none());

    let plan = reply_with_gif(&message("Brick", user("1", "a"), vec![]), &cfg, "bot", &gc).unwrap();
    assert_eq!(plan.error_reply.unwrap(), "Error, tag user");
    assert!(plan.targets.is_empty());

    let mut m = message("brick @role", user("1", "a"), vec![]);
    m.mention_roles = Some(vec!["r".to_string()]);
    assert_eq!(reply_with_gif(&m, &cfg, "bot", &gc).unwrap().error_reply.unwrap(), "Error, tag user, not role");
    m.mention_roles = Some(vec![]);
    assert_eq!(reply_with_gif(&m, &cfg, "bot", &gc).unwrap().error_reply.unwrap(), "Error, tag user");

    let mut m = message("brick", user("1", "a"), vec![user("7", "x"), user("bot", "me"), user("8", "y")]);
    m.referenced_message = Some(Box::new(message("orig", user("8", "y"), vec![])));
    let plan = reply_with_gif(&m, &cfg, "bot", &gc).unwrap();
    assert!(plan.error_reply.is_none());
    assert_eq!(plan.targets, vec![GifTarget::Brick(0), GifTarget::SelfReply]);

    let no_self = gif_config(None, None);
    let plan = reply_with_gif(&m, &cfg, "bot", &no_self).unwrap();
    assert_eq!(plan.targets, vec![GifTarget::Brick(0), GifTarget::Brick(1)]);
}

fn reaction(name: &str) -> ReactionAddResponse {
    ReactionAddResponse {
        user_id: "9".to_string(),
        channel_id: "c1".to_string(),
        message_id: "m1".to_string(),
        guild_id: None,
        emoji: Emoji { id: None, name: name.to_string() },
    }
}

#[test]
fn reaction_plans() {
    let gc = gif_config(Some("🧱"), Some("no u"));
    let m = message("anything", user("1", "a"), vec![]);
    assert_eq!(reply_to_reaction(&reaction("🧱"), &m, "bot", &gif_config(None, None)), ReactionPlan::Ignore);
    assert_eq!(reply_to_reaction(&reaction("👍"), &m, "bot", &gc), ReactionPlan::Ignore);
    assert_eq!(reply_to_reaction(&reaction("🧱"), &m, "bot", &gc), ReactionPlan::Brick);
    let mut m2 = message("anything", user("1", "a"), vec![]);
    m2.reactions = Some(vec![
        Reaction { emoji: Emoji { id: None, name: "👍".to_string() }, count: 3, me: false },
        Reaction { emoji: Emoji { id: None, name: "🧱".to_string() }, count: 2, me: false },
    ]);
    assert_eq!(reply_to_reaction(&reaction("🧱"), &m2, "bot", &gc), ReactionPlan::Ignore);
    m2.reactions.as_mut().unwrap()[1].count = 1;
    assert_eq!(reply_to_reaction(&reaction("🧱"), &m2, "bot", &gc), ReactionPlan::Brick);
    let own = message("anything", user("bot", "me"), vec![]);
    assert_eq!(reply_to_reaction(&reaction("🧱"), &own, "bot", &gc), ReactionPlan::SelfReply);
    assert_eq!(reply_to_reaction(&reaction("🧱"), &own, "bot", &gif_config(Some("🧱"), None)), ReactionPlan::Brick);
}

#[test]
fn brick_command_plan() {
    let cfg = config();
    assert!(plan_brick_command(&message("brick", user("1", "a"), vec![]), &cfg, "bot").is_none());
    assert!(plan_brick_command(&message("!BRICK", user("1", "a"), vec![]), &cfg, "bot").is_none());
    let plan = plan_brick_command(&message("!brick", user("1", "a"), vec![]), &cfg, "bot").unwrap();
    assert_eq!(plan.error_reply.unwrap(), "Error, tag user");
    let mut m = message("!brick x", user("1", "a"), vec![user("bot", "me"), user("5", "z")]);
    m.referenced_message = Some(Box::new(message("orig", user("5", "z"), vec![])));
    let plan = plan_brick_command(&m, &cfg, "bot").unwrap();
    assert_eq!(plan.targets, vec![GifTarget::SelfReply, GifTarget::Brick(1)]);
}

#[test]
fn status_messages() {
    assert_eq!(select_message_for(1000, Weekday::Mon), "THE GAME");
    assert_eq!(select_message_for(1001, Weekday::Mon), "opli je debílek");
    assert_eq!(select_message_for(2, Weekday::Wed), "to mu je teda");
    assert_eq!(select_message_for(3, Weekday::Wed), "it's wednesday my dudes");
    assert_eq!(select_message_for(999, Weekday::Thu), "posere tě krtek");
    assert_eq!(select_message_for(4, Weekday::Sun), "with 🧱");
    let known = [
        "THE GAME",
        "opli je debílek",
        "to mu je teda",
        "it's wednesday my dudes",
        "posere tě krtek",
        "with 🧱",
    ];
    assert!(known.contains(&select_message()));
}

#[test]
fn parse_like_std() {
    for s in ["0", "7", "+7", "007", "18446744073709551615", "18446744073709551616", "", "+", "-1", "1a", " 1", "١"] {
        assert_eq!(parse_usize_str(s), s.parse::<usize>().ok(), "{:?}", s);
    }
}

fn keys(ks: &[&str]) -> Vec<String> {
    ks.iter().map(|k| k.to_string()).collect()
}

#[test]
fn keyframe_choice() {
    assert_eq!(choose_keyframes(&keys(&[]), 3), KeyframeChoice::Default);
    assert_eq!(choose_keyframes(&keys(&["0", "10", "3"]), 3), KeyframeChoice::Exact(2));
    assert_eq!(choose_keyframes(&keys(&["0", "10", "4", "20"]), 7), KeyframeChoice::Between(2, 1));
    assert_eq!(choose_keyframes(&keys(&["10", "20"]), 5), KeyframeChoice::Single(0));
    assert_eq!(choose_keyframes(&keys(&["1", "2"]), 5), KeyframeChoice::Single(1));
    assert_eq!(choose_keyframes(&keys(&["x", "5"]), 5), KeyframeChoice::Exact(1));
}

#[test]
fn keyframe_lookup_defined() {
    assert!(can_choose_keyframes(&keys(&["x", "5"]), 5));
    assert!(!can_choose_keyframes(&keys(&["x", "5"]), 3));
    assert!(!can_choose_keyframes(&keys(&["05"]), 3));
    assert!(can_choose_keyframes(&keys(&["0", "10"]), 3));
    assert!(can_choose_keyframes(&keys(&[]), 3));
}
