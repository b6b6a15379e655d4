//! REST API methods: each one is built here as a request description
//! (method, address, authorization, body) that the caller sends.
use vstd::prelude::*;
use vstd::string::*;

use crate::error::{is_internal_error, BotError};
use crate::text::{has_prefix, has_suffix, json_string, push_json_string};

verus! {

#[derive(Debug, Clone, Copy, PartialEq, Eq, Structural)]
pub enum Method {
    Get,
    Post,
}

/// The body of a request.
#[derive(Debug)]
pub enum RequestBody {
    Empty,
    /// A JSON document, sent as `application/json`
    Json(String),
    /// A multipart form: the file as part `file`, and the JSON document, if
    /// any, as part `payload_json`
    Multipart { file: Vec<u8>, file_name: String, payload_json: Option<String> },
}

/// A request to the Discord REST API.
#[derive(Debug)]
pub struct HttpRequest {
    pub method: Method,
    pub url: String,
    /// Value of the `Authorization` header
    pub authorization: String,
    pub body: RequestBody,
}

pub enum BodyView {
    Empty,
    Json(Seq<char>),
    Multipart { file: Seq<u8>, file_name: Seq<char>, payload_json: Option<Seq<char>> },
}

pub struct RequestView {
    pub method: Method,
    pub url: Seq<char>,
    pub authorization: Seq<char>,
    pub body: BodyView,
}

impl View for HttpRequest {
    type V = RequestView;

    open spec fn view(&self) -> RequestView {
        RequestView {
            method: self.method,
            url: self.url@,
            authorization: self.authorization@,
            body: match &self.body {
                RequestBody::Empty => BodyView::Empty,
                RequestBody::Json(j) => BodyView::Json(j@),
                RequestBody::Multipart { file, file_name, payload_json } => BodyView::Multipart {
                    file: file@,
                    file_name: file_name@,
                    payload_json: match payload_json {
                        Some(p) => Some(p@),
                        None => None,
                    },
                },
            },
        }
    }
}

/// The `Authorization` header of a bot with token `token`.
pub open spec fn bot_authorization(token: Seq<char>) -> Seq<char> {
    "Bot "@ + token
}

/// The `Authorization` header of a bot with token `token`.
pub fn authorization(token: &str) -> (r: String)
    ensures
        r@ == bot_authorization(token@),
{
    let mut t = String::from_str("Bot ");
    t.append(token);
    t
}

/// Builder for requests with new messages
pub struct NewMessageBuilder {
    channel: String,
    token: String,
    message: Option<String>,
    reply_id: Option<String>,
    file: Option<Vec<u8>>,
    file_name: Option<String>,
}

/// The abstract value of a [`NewMessageBuilder`].
pub struct MessageDraft {
    pub channel: Seq<char>,
    /// The `Authorization` header
    pub token: Seq<char>,
    pub message: Option<Seq<char>>,
    pub reply_id: Option<Seq<char>>,
    /// The attached file and its name
    pub file: Option<(Seq<u8>, Seq<char>)>,
}

pub open spec fn opt_view(o: Option<String>) -> Option<Seq<char>> {
    match o {
        Some(s) => Some(s@),
        None => None,
    }
}

impl View for NewMessageBuilder {
    type V = MessageDraft;

    closed spec fn view(&self) -> MessageDraft {
        MessageDraft {
            channel: self.channel@,
            token: self.token@,
            message: opt_view(self.message),
            reply_id: opt_view(self.reply_id),
            file: match (self.file, self.file_name) {
                (Some(f), Some(n)) => Some((f@, n@)),
                _ => None,
            },
        }
    }
}

/// The address at which messages of channel `channel` are created.
pub open spec fn channel_messages_url(channel: Seq<char>) -> Seq<char> {
    "https://discord.com/api/channels/"@ + channel + "/messages"@
}

/// The JSON document of a new message: its content (empty if none) and the
/// message it replies to, if any.
pub open spec fn message_json(message: Option<Seq<char>>, reply_id: Option<Seq<char>>) -> Seq<char> {
    let content = match message {
        Some(m) => m,
        None => Seq::empty(),
    };
    match reply_id {
        Some(r) => "{\"content\":"@ + json_string(content) + ",\"message_reference\":{\"message_id\":"@
            + json_string(r) + "}}"@,
        None => "{\"content\":"@ + json_string(content) + "}"@,
    }
}

/// The request that sends the drafted message: a JSON body without a file,
/// a multipart form with one.
pub open spec fn draft_request(d: MessageDraft) -> RequestView {
    RequestView {
        method: Method::Post,
        url: channel_messages_url(d.channel),
        authorization: d.token,
        body: match d.file {
            Some((file, file_name)) => BodyView::Multipart {
                file,
                file_name,
                payload_json: if d.message is Some {
                    Some(message_json(d.message, d.reply_id))
                } else {
                    None
                },
            },
            None => BodyView::Json(message_json(d.message, d.reply_id)),
        },
    }
}

/// The JSON document of a request body, if it carries one.
pub open spec fn body_json(b: BodyView) -> Option<Seq<char>> {
    match b {
        BodyView::Json(j) => Some(j),
        BodyView::Multipart { payload_json, .. } => payload_json,
        BodyView::Empty => None,
    }
}

/// A drafted text always reaches the request, with or without a file and
/// with or without a reply: the request's JSON document starts with the text
/// as its content, and names the replied-to message when there is one. A
/// file is sent as the multipart `file` part under its name, with the JSON
/// document beside it exactly when there is a text.
pub proof fn lemma_drafted_text_is_sent(d: MessageDraft)
    ensures
        d.message is Some ==> body_json(draft_request(d).body) is Some && has_prefix(
            body_json(draft_request(d).body)->0,
            "{\"content\":"@ + json_string(d.message->0),
        ),
        (body_json(draft_request(d).body) is Some && d.reply_id is Some) ==> has_suffix(
            body_json(draft_request(d).body)->0,
            ",\"message_reference\":{\"message_id\":"@ + json_string(d.reply_id->0) + "}}"@,
        ),
        d.file matches Some((f, n)) ==> (draft_request(d).body matches BodyView::Multipart {
            file,
            file_name,
            payload_json,
        } && file == f && file_name == n && (payload_json is Some <==> d.message is Some)),
        d.file is None ==> draft_request(d).body is Json,
{
    if let Some(m) = d.message {
        let j = message_json(d.message, d.reply_id);
        let p = "{\"content\":"@ + json_string(m);
        match d.reply_id {
            Some(r) => {
                assert(j == p + (",\"message_reference\":{\"message_id\":"@ + json_string(r) + "}}"@));
            },
            None => {
                assert(j == p + "}"@);
            },
        }
        assert(j.subrange(0, p.len() as int) =~= p);
    }
    if let Some(r) = d.reply_id {
        let content = match d.message {
            Some(m) => m,
            None => Seq::empty(),
        };
        let j = message_json(d.message, d.reply_id);
        let sfx = ",\"message_reference\":{\"message_id\":"@ + json_string(r) + "}}"@;
        let pre = "{\"content\":"@ + json_string(content);
        assert(j == pre + sfx);
        assert(j.subrange(j.len() - sfx.len(), j.len() as int) =~= sfx);
    }
}

impl NewMessageBuilder {
    #[verifier::type_invariant]
    spec fn file_has_name(&self) -> bool {
        self.file is Some <==> self.file_name is Some
    }

    pub fn new(token: &str, channel_id: &str) -> (r: Self)
        ensures
            r@ == (MessageDraft {
                channel: channel_id@,
                token: bot_authorization(token@),
                message: None,
                reply_id: None,
                file: None,
            }),
    {
        Self {
            token: authorization(token),
            message: None,
            reply_id: None,
            file: None,
            file_name: None,
            channel: String::from_str(channel_id),
        }
    }

    pub fn message(self, message: &str) -> (r: Self)
        ensures
            r@ == (MessageDraft { message: Some(message@), ..self@ }),
    {
        proof {
            use_type_invariant(&self);
        }
        NewMessageBuilder { message: Some(String::from_str(message)), ..self }
    }

    pub fn reply_to(self, reply_id: &str) -> (r: Self)
        ensures
            r@ == (MessageDraft { reply_id: Some(reply_id@), ..self@ }),
    {
        proof {
            use_type_invariant(&self);
        }
        NewMessageBuilder { reply_id: Some(String::from_str(reply_id)), ..self }
    }

    /// Will attach file to output message
    pub fn file_with_filename(self, file: Vec<u8>, filename: &str) -> (r: Self)
        ensures
            r@ == (MessageDraft { file: Some((file@, filename@)), ..self@ }),
    {
        NewMessageBuilder { file: Some(file), file_name: Some(String::from_str(filename)), ..self }
    }

    /// The request that sends the message; a message needs a text or a file.
    pub fn into_request(self) -> (r: Result<HttpRequest, BotError>)
        ensures
            r is Err <==> (self@.message is None && self@.file is None),
            r matches Err(e) ==> is_internal_error(e, "Cannot create message without any content"@),
            r matches Ok(req) ==> req@ == draft_request(self@),
    {
        proof {
            use_type_invariant(&self);
        }
        if self.message.is_none() && self.file.is_none() {
            return Err(
                BotError::InternalError(String::from_str("Cannot create message without any content")),
            );
        }
        let mut url = String::from_str("https://discord.com/api/channels/");
        url.append(self.channel.as_str());
        url.append("/messages");

        let mut json = String::from_str("{\"content\":");
        match &self.message {
            Some(m) => push_json_string(&mut json, m.as_str()),
            None => push_json_string(&mut json, ""),
        }
        match &self.reply_id {
            Some(reply_id) => {
                json.append(",\"message_reference\":{\"message_id\":");
                push_json_string(&mut json, reply_id.as_str());
                json.append("}}");
            },
            None => {
                json.append("}");
            },
        }
        proof {
            reveal_strlit("");
            assert(json@ =~= message_json(opt_view(self.message), opt_view(self.reply_id)));
        }
        let has_message = self.message.is_some();
        let body = match self.file {
            Some(file) => {
                // if file is `Some`, file_name must be too
                let file_name = self.file_name.unwrap();
                RequestBody::Multipart {
                    file,
                    file_name,
                    payload_json: if has_message {
                        Some(json)
                    } else {
                        None
                    },
                }
            },
            None => RequestBody::Json(json),
        };
        Ok(HttpRequest { method: Method::Post, url, authorization: self.token, body })
    }
}

/// The address of the callback of interaction `id` with token `token`.
pub open spec fn interaction_callback_url(id: Seq<char>, token: Seq<char>) -> Seq<char> {
    "https://discord.com/api/v8/interactions/"@ + id + "/"@ + token + "/callback"@
}

/// The answer to an interaction: a message (type 3) or a deferred answer (type 5).
pub open spec fn interaction_response_json(reply: Option<Seq<char>>) -> Seq<char> {
    match reply {
        Some(m) => "{\"data\":{\"content\":"@ + json_string(m) + "},\"type\":3}"@,
        None => "{\"type\":5}"@,
    }
}

/// The request that answers interaction `interaction_id`.
pub fn send_interaction_response_request(
    interaction_id: &str,
    interaction_token: &str,
    token: &str,
    reply: Option<&str>,
) -> (r: HttpRequest)
    ensures
        r@ == (RequestView {
            method: Method::Post,
            url: interaction_callback_url(interaction_id@, interaction_token@),
            authorization: bot_authorization(token@),
            body: BodyView::Json(
                interaction_response_json(
                    match reply {
                        Some(m) => Some(m@),
                        None => None,
                    },
                ),
            ),
        }),
{
    let mut url = String::from_str("https://discord.com/api/v8/interactions/");
    url.append(interaction_id);
    url.append("/");
    url.append(interaction_token);
    url.append("/callback");
    let json = match reply {
        Some(message) => {
            let mut j = String::from_str("{\"data\":{\"content\":");
            push_json_string(&mut j, message);
            j.append("},\"type\":3}");
            j
        },
        None => String::from_str("{\"type\":5}"),
    };
    HttpRequest { method: Method::Post, url, authorization: authorization(token), body: RequestBody::Json(json) }
}

/// The address of message `message_id` of channel `channel_id`.
pub open spec fn channel_message_url(channel_id: Seq<char>, message_id: Seq<char>) -> Seq<char> {
    "https://discord.com/api/channels/"@ + channel_id + "/messages/"@ + message_id
}

/// The request that fetches message `message_id` of channel `channel_id`.
pub fn get_message_from_channel_request(token: &str, channel_id: &str, message_id: &str) -> (r: HttpRequest)
    ensures
        r@ == (RequestView {
            method: Method::Get,
            url: channel_message_url(channel_id@, message_id@),
            authorization: bot_authorization(token@),
            body: BodyView::Empty,
        }),
{
    let mut url = String::from_str("https://discord.com/api/channels/");
    url.append(channel_id);
    url.append("/messages/");
    url.append(message_id);
    HttpRequest { method: Method::Get, url, authorization: authorization(token), body: RequestBody::Empty }
}

/// The address of the commands of application `app_id`.
pub open spec fn commands_url(app_id: Seq<char>) -> Seq<char> {
    "https://discord.com/api/applications/"@ + app_id + "/commands"@
}

/// The request that registers the command whose JSON document is `command`.
pub fn register_commands_request(token: &str, command: &str, app_id: &str) -> (r: HttpRequest)
    ensures
        r@ == (RequestView {
            method: Method::Post,
            url: commands_url(app_id@),
            authorization: bot_authorization(token@),
            body: BodyView::Json(command@),
        }),
{
    let mut url = String::from_str("https://discord.com/api/applications/");
    url.append(app_id);
    url.append("/commands");
    HttpRequest {
        method: Method::Post,
        url,
        authorization: authorization(token),
        body: RequestBody::Json(String::from_str(command)),
    }
}

} // verus!
