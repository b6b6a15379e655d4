use brick_bot::config::{avatar_alpha, image_name, tag_nobody, tag_role_msg};
use brick_bot::structs::{ChannelType, DiscordResult, Opcode, Status, StatusType, User};
use brick_bot::text::{contains, decimal_string, json_string_of, starts_with, str_eq};
use brick_bot::BotError;

fn user(id: &str, name: &str, avatar: &str) -> User {
    User { id: id.to_string(), username: name.to_string(), avatar: avatar.to_string() }
}

#[test]
fn decimal_formats_like_to_string() {
    for n in [0u64, 7, 10, 99, 100, 1536, 4294967296, u64::MAX] {
        assert_eq!(decimal_string(n), n.to_string());
    }
}

#[test]
fn json_string_matches_serde_json() {
    let samples = [
        "",
        "plain",
        "quote \" and backslash \\",
        "line\nfeed\r\ttab",
        "\u{8}\u{c}",
        "\u{1}\u{1f}\u{7f}",
        "čeština 🧱",
        "/slash/",
    ];
    for s in samples {
        assert_eq!(json_string_of(s), serde_json::to_string(s).unwrap());
    }
}

#[test]
fn substring_tests() {
    assert!(starts_with("brick @user", "brick"));
    assert!(!starts_with("bri", "brick"));
    assert!(starts_with("anything", ""));
    assert!(contains("please brick him", "brick"));
    assert!(!contains("please brock him", "brick"));
    assert!(contains("", ""));
    assert!(!contains("", "x"));
    assert!(str_eq("abc", "abc"));
    assert!(!str_eq("abc", "abcd"));
    assert!(!str_eq("abd", "abc"));
}

#[test]
fn config_defaults() {
    assert_eq!(tag_role_msg(), "Error, tag user, not role");
    assert_eq!(tag_nobody(), "Error, tag user");
    assert_eq!(image_name(), "brick.gif");
    assert!(avatar_alpha());
}

#[test]
fn avatar_url_of_user() {
    let u = user("80351110224678912", "Nelly", "8342729096ea3675442027381ff50dfe");
    assert_eq!(
        u.get_avatar_url(),
        "https://cdn.discordapp.com/avatars/80351110224678912/8342729096ea3675442027381ff50dfe.png"
    );
}

#[test]
fn status_new_has_one_activity() {
    let s = Status::new(StatusType::Online, "with 🧱");
    assert_eq!(s.status, StatusType::Online);
    let a = s.activities.unwrap();
    assert_eq!(a.len(), 1);
    assert_eq!(a[0].name, "with 🧱");
    assert_eq!(a[0].activity_type, 0);
    assert!(!s.afk);
    assert_eq!(s.since, None);
}

#[test]
fn discord_result_conversion() {
    let ok: Result<u32, BotError> = Result::from(DiscordResult::Success(5u32));
    assert_eq!(ok.unwrap(), 5);
    let err: Result<u32, BotError> =
        DiscordResult::Error { message: String::from("Missing Access"), code: 50001 }.into_result();
    match err {
        Err(BotError::ApiError(m)) => assert_eq!(m, "Error #50001, Missing Access"),
        other => panic!("unexpected {:?}", other),
    }
    let err2: Result<u32, BotError> =
        Result::from(DiscordResult::Error { message: String::from("Unknown"), code: 0 });
    assert!(matches!(err2, Err(BotError::ApiError(ref m)) if m == "Error #0, Unknown"));
}

#[test]
fn opcode_codes_and_names() {
    let all = [
        (Opcode::Dispatch, 0u16, "Dispatch"),
        (Opcode::Heartbeat, 1, "Heartbeat"),
        (Opcode::Identify, 2, "Identify"),
        (Opcode::PresenceUpdate, 3, "PresenceUpdate"),
        (Opcode::VoiceStateUpdate, 4, "VoiceStateUpdate"),
        (Opcode::Resume, 6, "Resume"),
        (Opcode::Reconnect, 7, "Reconnect"),
        (Opcode::RequestGuildMembers, 8, "RequestGuildMembers"),
        (Opcode::InvalidSession, 9, "InvalidSession"),
        (Opcode::Hello, 10, "Hello"),
        (Opcode::HeartbeatAck, 11, "HeartbeatAck"),
    ];
    for (op, code, name) in all {
        assert_eq!(op.code(), code);
        assert_eq!(Opcode::from_code(code), Some(op));
        assert_eq!(op.name(), name);
        assert_eq!(format!("{:?}", op), name);
    }
    assert_eq!(Opcode::from_code(5), None);
    assert_eq!(Opcode::from_code(12), None);
}

#[test]
fn channel_type_codes() {
    assert_eq!(ChannelType::GuildText.code(), 0);
    assert_eq!(ChannelType::Store.code(), 6);
    assert_eq!(ChannelType::from_code(2), Some(ChannelType::Voice));
    assert_eq!(ChannelType::from_code(7), None);
}

#[test]
fn status_type_names() {
    assert_eq!(StatusType::Online.name(), "online");
    assert_eq!(StatusType::DoNotDisturb.name(), "dnd");
    assert_eq!(StatusType::Idle.name(), "idle");
    assert_eq!(StatusType::Invisible.name(), "invisible");
    assert_eq!(StatusType::Offline.name(), "offline");
}
