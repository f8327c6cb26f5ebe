//! The stub chat-completion reply of capture mode.

use vstd::prelude::*;
use vstd::string::*;
use crate::ident::{new_uuid, uuid_simple, uuid_to_simple_text};
use crate::json::{json_parse_error, json_quoted, json_string, json_text_is_valid};
use crate::text::{prefix_chars, push_signed_decimal, signed_decimal, str_eq, take_chars};
use crate::time::now;

verus! {

/// Longest assistant reply the stub echoes, in characters.
pub const STUB_CONTENT_CHARS: usize = 120;

/// One chat message as the stub reads it: its role and content when they
/// are JSON strings.
#[derive(Debug)]
pub struct ChatMessage {
    pub role: Option<String>,
    pub content: Option<String>,
}

/// What the stub reads from a chat-completion request body: `model` when it
/// is a string, `messages` when it is an array.
#[derive(Debug)]
pub struct ChatRequest {
    pub model: Option<String>,
    pub messages: Option<Vec<ChatMessage>>,
}

/// Model of a [`ChatMessage`].
pub struct ChatMessageView {
    pub role: Option<Seq<char>>,
    pub content: Option<Seq<char>>,
}

/// Model of a [`ChatRequest`].
pub struct ChatRequestView {
    pub model: Option<Seq<char>>,
    pub messages: Option<Seq<ChatMessageView>>,
}

impl View for ChatMessage {
    type V = ChatMessageView;

    open spec fn view(&self) -> ChatMessageView {
        ChatMessageView { role: self.role.deep_view(), content: self.content.deep_view() }
    }
}

impl View for ChatRequest {
    type V = ChatRequestView;

    open spec fn view(&self) -> ChatRequestView {
        ChatRequestView {
            model: self.model.deep_view(),
            messages: match self.messages {
                Some(ms) => Some(ms@.map_values(|m: ChatMessage| m@)),
                None => None,
            },
        }
    }
}

/// What the stub reads from the JSON document `serde_json::from_str::<Value>`
/// parses from `text`: `model` when it is a string, `messages` when it is an
/// array, and in each of its elements `role` and `content` when they are
/// strings; `None` where the text is not JSON.
pub uninterp spec fn chat_request_of_text(text: Seq<char>) -> Option<ChatRequestView>;

/// `serde_json::from_str::<Value>(text)`, then the fields the stub reads,
/// picked with `Value::get`, `as_str` and `as_array`. Fails exactly on text
/// that is not JSON, with serde_json's error message.
#[verifier::external_body]
pub(crate) fn parse_chat_request(text: &str) -> (res: Result<ChatRequest, String>)
    ensures
        res is Ok <==> json_text_is_valid(text@),
        res matches Ok(r) ==> chat_request_of_text(text@) == Some(r@),
        res matches Err(e) ==> e@ == json_parse_error(text@),
{
    let v: serde_json::Value = serde_json::from_str(text).map_err(|e| e.to_string())?;
    let field = |m: &serde_json::Value, k: &str| m.get(k).and_then(|x| x.as_str()).map(String::from);
    let messages = v.get("messages").and_then(|m| m.as_array()).map(|a| {
        a.iter().map(|m| ChatMessage { role: field(m, "role"), content: field(m, "content") }).collect()
    });
    Ok(ChatRequest { model: field(&v, "model"), messages })
}

/// The OpenAI-shaped success the capture endpoint answers with: one choice
/// holding an assistant message, no token usage.
#[derive(Debug)]
pub struct StubReply {
    pub id: String,
    pub object: String,
    pub created: i64,
    pub model: String,
    pub role: String,
    pub content: String,
    pub finish_reason: String,
}

/// Whether a message is from the user.
pub open spec fn is_user_message(m: ChatMessageView) -> bool {
    m.role == Some("user"@)
}

/// The content of the last user message, empty when there is none or its
/// content is not a string.
pub open spec fn last_user_content(messages: Seq<ChatMessageView>) -> Seq<char>
    decreases messages.len(),
{
    if messages.len() == 0 {
        Seq::empty()
    } else if is_user_message(messages.last()) {
        match messages.last().content {
            Some(c) => c,
            None => Seq::empty(),
        }
    } else {
        last_user_content(messages.drop_last())
    }
}

/// The assistant text of the stub: the last user line, at most 120 characters.
pub open spec fn stub_content(req: ChatRequestView) -> Seq<char> {
    match req.messages {
        Some(ms) => prefix_chars(last_user_content(ms), STUB_CONTENT_CHARS as nat),
        None => Seq::empty(),
    }
}

/// The model the stub names: the request's, else `grabber-capture`.
pub open spec fn stub_model(req: ChatRequestView) -> Seq<char> {
    match req.model {
        Some(m) => m,
        None => "grabber-capture"@,
    }
}

/// The completion id of the stub for the UUID `id`.
pub open spec fn stub_id(id: u128) -> Seq<char> {
    "chatcmpl-grabber-"@ + uuid_simple(id)
}

/// Whether `r` is the stub for `req` with completion UUID `id`, created at `created`.
pub open spec fn is_stub_for(r: StubReply, req: ChatRequestView, id: u128, created: i64) -> bool {
    &&& r.id@ == stub_id(id)
    &&& r.object@ == "chat.completion"@
    &&& r.created == created
    &&& r.model@ == stub_model(req)
    &&& r.role@ == "assistant"@
    &&& r.content@ == stub_content(req)
    &&& r.finish_reason@ == "stop"@
}

/// The stub as the JSON text serde_json writes for its `Value`: compact,
/// object keys in sorted order, one choice with index 0, and zero token usage.
pub open spec fn stub_json_text(r: StubReply) -> Seq<char> {
    "{\"choices\":[{\"finish_reason\":"@ + json_quoted(r.finish_reason@)
        + ",\"index\":0,\"message\":{\"content\":"@ + json_quoted(r.content@) + ",\"role\":"@
        + json_quoted(r.role@) + "}}],\"created\":"@ + signed_decimal(r.created as int)
        + ",\"id\":"@ + json_quoted(r.id@) + ",\"model\":"@ + json_quoted(r.model@)
        + ",\"object\":"@ + json_quoted(r.object@)
        + ",\"usage\":{\"completion_tokens\":0,\"prompt_tokens\":0,\"total_tokens\":0}}"@
}

/// Whether `r` is the stub for `req` with some completion UUID and creation time.
pub open spec fn is_stub_answer(r: StubReply, req: ChatRequestView) -> bool {
    exists|id: u128, created: i64| is_stub_for(r, req, id, created)
}

/// The content of the last user message of `messages`, empty when there is none.
fn last_user_text(messages: &Vec<ChatMessage>) -> (res: String)
    ensures
        res@ == last_user_content(messages@.map_values(|m: ChatMessage| m@)),
{
    let ghost views = messages@.map_values(|m: ChatMessage| m@);
    let mut i: usize = messages.len();
    assert(views.take(i as int) =~= views);
    while i > 0
        invariant
            i <= messages.len(),
            views == messages@.map_values(|m: ChatMessage| m@),
            last_user_content(views) == last_user_content(views.take(i as int)),
        decreases i,
    {
        let ghost prefix = views.take(i as int);
        assert(prefix.last() == messages@[i - 1]@);
        let is_user = match &messages[i - 1].role {
            Some(r) => str_eq(r.as_str(), "user"),
            None => false,
        };
        if is_user {
            return match &messages[i - 1].content {
                Some(c) => c.clone(),
                None => String::new(),
            };
        }
        assert(prefix.drop_last() =~= views.take(i - 1));
        i = i - 1;
    }
    String::new()
}

impl StubReply {
    /// The stub as the JSON text that is sent and stored.
    pub fn to_json(&self) -> (res: String)
        ensures
            res@ == stub_json_text(*self),
    {
        let mut s = String::from_str("{\"choices\":[{\"finish_reason\":");
        s = s.concat(json_string(self.finish_reason.as_str()).as_str());
        s = s.concat(",\"index\":0,\"message\":{\"content\":");
        s = s.concat(json_string(self.content.as_str()).as_str());
        s = s.concat(",\"role\":");
        s = s.concat(json_string(self.role.as_str()).as_str());
        s = s.concat("}}],\"created\":");
        push_signed_decimal(&mut s, self.created);
        s = s.concat(",\"id\":");
        s = s.concat(json_string(self.id.as_str()).as_str());
        s = s.concat(",\"model\":");
        s = s.concat(json_string(self.model.as_str()).as_str());
        s = s.concat(",\"object\":");
        s = s.concat(json_string(self.object.as_str()).as_str());
        s = s.concat(",\"usage\":{\"completion_tokens\":0,\"prompt_tokens\":0,\"total_tokens\":0}}");
        s
    }
}

/// The stub reply for `req`, with completion UUID `id` and creation time `created`.
pub fn stub_reply_for(req: &ChatRequest, id: u128, created: i64) -> (res: StubReply)
    ensures
        is_stub_for(res, req@, id, created),
{
    let content = match &req.messages {
        Some(ms) => {
            let last = last_user_text(ms);
            take_chars(last.as_str(), STUB_CONTENT_CHARS)
        },
        None => String::new(),
    };
    let model = match &req.model {
        Some(m) => m.clone(),
        None => String::from_str("grabber-capture"),
    };
    let id_text = String::from_str("chatcmpl-grabber-").concat(uuid_to_simple_text(id).as_str());
    StubReply {
        id: id_text,
        object: String::from_str("chat.completion"),
        created,
        model,
        role: String::from_str("assistant"),
        content,
        finish_reason: String::from_str("stop"),
    }
}

/// A minimal OpenAI-compatible success for `req`, echoing its last user line
/// as the assistant's content; its completion id is fresh and random and its
/// creation time is the current time in seconds.
pub fn stub_response(req: &ChatRequest) -> (res: StubReply)
    ensures
        is_stub_answer(res, req@),
{
    let id = new_uuid();
    let created = now().secs;
    stub_reply_for(req, id, created)
}

} // verus!
