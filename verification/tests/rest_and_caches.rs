use brick_bot::rest::{
    authorization, get_message_from_channel_request, register_commands_request,
    send_interaction_response_request, HttpRequest, Method, NewMessageBuilder, RequestBody,
};
use brick_bot::structs::User;
use brick_bot::{AvatarCache, BotError, Caches, GifKey};
use bytes::Bytes;

fn json_of(r: &HttpRequest) -> &str {
    match &r.body {
        RequestBody::Json(j) => j,
        _ => panic!("expected a JSON body"),
    }
}

#[test]
fn message_needs_content() {
    match NewMessageBuilder::new("tok", "123").reply_to("9").into_request() {
        Err(BotError::InternalError(m)) => assert_eq!(m, "Cannot create message without any content"),
        _ => panic!(),
    }
}

#[test]
fn text_message_request() {
    let r = NewMessageBuilder::new("tok", "123").message("hi \"you\"").into_request().unwrap();
    assert_eq!(r.method, Method::Post);
    assert_eq!(r.url, "https://discord.com/api/channels/123/messages");
    assert_eq!(r.authorization, "Bot tok");
    assert_eq!(json_of(&r), r#"{"content":"hi \"you\""}"#);
}

#[test]
fn reply_message_request() {
    let r = NewMessageBuilder::new("tok", "123").message("hi").reply_to("777").into_request().unwrap();
    assert_eq!(json_of(&r), r#"{"content":"hi","message_reference":{"message_id":"777"}}"#);
}

#[test]
fn file_message_requests() {
    let r = NewMessageBuilder::new("tok", "5").file_with_filename(vec![1, 2, 3], "brick.gif").into_request().unwrap();
    match r.body {
        RequestBody::Multipart { file, file_name, payload_json } => {
            assert_eq!(file, vec![1, 2, 3]);
            assert_eq!(file_name, "brick.gif");
            assert_eq!(payload_json, None);
        }
        _ => panic!(),
    }
    let r = NewMessageBuilder::new("tok", "5")
        .file_with_filename(vec![9], "a.gif")
        .message("look")
        .reply_to("1")
        .into_request()
        .unwrap();
    match r.body {
        RequestBody::Multipart { payload_json, .. } => {
            assert_eq!(payload_json.unwrap(), r#"{"content":"look","message_reference":{"message_id":"1"}}"#)
        }
        _ => panic!(),
    }
}

#[test]
fn interaction_and_other_requests() {
    let r = send_interaction_response_request("11", "itok", "tok", Some("pong"));
    assert_eq!(r.url, "https://discord.com/api/v8/interactions/11/itok/callback");
    assert_eq!(r.authorization, "Bot tok");
    assert_eq!(json_of(&r), r#"{"data":{"content":"pong"},"type":3}"#);
    let r = send_interaction_response_request("11", "itok", "tok", None);
    assert_eq!(json_of(&r), r#"{"type":5}"#);

    let r = get_message_from_channel_request("tok", "c1", "m1");
    assert_eq!(r.method, Method::Get);
    assert_eq!(r.url, "https://discord.com/api/channels/c1/messages/m1");
    assert!(matches!(r.body, RequestBody::Empty));

    let r = register_commands_request("tok", r#"{"name":"brick"}"#, "app");
    assert_eq!(r.url, "https://discord.com/api/applications/app/commands");
    assert_eq!(json_of(&r), r#"{"name":"brick"}"#);
    assert_eq!(authorization("x"), "Bot x");
}

fn user(id: &str, avatar: &str) -> User {
    User { id: id.to_string(), username: "u".to_string(), avatar: avatar.to_string() }
}

#[test]
fn avatar_cache_keeps_first_image() {
    let mut c = AvatarCache::new();
    let u = user("1", "a");
    assert!(c.get(&u).is_none());
    c.insert(&u, Bytes::from_static(b"first"));
    assert_eq!(c.get(&u).unwrap().as_ref(), b"first");
    c.insert(&u, Bytes::from_static(b"second"));
    assert_eq!(c.get(&u).unwrap().as_ref(), b"first");
    // a new avatar hash is a different entry
    assert!(c.get(&user("1", "b")).is_none());
    assert!(c.get(&user("2", "a")).is_none());
    let d = AvatarCache::default();
    assert!(d.get(&u).is_none());
}

#[test]
fn gif_cache_replaces() {
    let mut c = Caches::new();
    let k = GifKey::new("1".to_string(), "a".to_string(), "brick".to_string());
    assert!(c.get_gif(&k).is_none());
    c.insert_gif(k.clone(), Bytes::from_static(b"one"));
    assert_eq!(c.get_gif(&k).unwrap().as_ref(), b"one");
    c.insert_gif(k.clone(), Bytes::from_static(b"two"));
    assert_eq!(c.get_gif(&k).unwrap().as_ref(), b"two");
    let other = GifKey::new("1".to_string(), "a".to_string(), "slap".to_string());
    assert!(c.get_gif(&other).is_none());
    let u = user("1", "a");
    assert!(c.get_avatar(&u).is_none());
    c.insert_avatar(&u, Bytes::from_static(b"av"));
    assert_eq!(c.get_avatar(&u).unwrap().as_ref(), b"av");
    assert_eq!(c.get_gif(&k).unwrap().as_ref(), b"two");
}
