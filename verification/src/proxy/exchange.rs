//! What the proxy does with one request, in forward mode and in capture
//! mode. The application reads the request, performs the storage and
//! network steps named here, and hands back what came of them.

use vstd::prelude::*;
use vstd::string::*;
use crate::config::Mode;
use crate::json::{json_parse_error, json_quoted, json_string, json_text_is_valid};
use crate::proxy::chat::{
    ChatRequest, ChatRequestView, StubReply, chat_request_of_text, is_stub_answer,
    parse_chat_request, stub_json_text, stub_response,
};
use crate::store::model::{
    CaptureRecord, Direction, HeadersView, SecretFlag, any_secret_header, has_secret_header,
    is_secret_name,
};
use crate::text::{
    ascii_lower_seq, str_eq, text_from_bytes_lossy, to_ascii_lower, trim_end, trim_end_char,
    utf8_lossy,
};
use vstd::utf8::{decode_utf8, valid_utf8};

verus! {

/// Largest request body the capture endpoint reads: 8 MiB.
pub const MAX_CAPTURE_BODY: usize = 8388608;

/// Largest request body the forwarding endpoint reads: 64 MiB.
pub const MAX_FORWARD_BODY: usize = 67108864;

/// A uBlock Origin filter list that lets janitorai.com reach the local
/// proxy despite the "Block LAN" list; uBlock re-fetches it by itself once
/// the user has subscribed to it.
pub const UBLOCK_FILTER: &'static str = "! JanitorAI Grabber - allow janitorai.com to reach the local proxy\n@@||127.0.0.1:8817^$domain=janitorai.com\n";

/// What a reply carries.
#[derive(Debug)]
pub enum ReplyBody {
    /// Plain text.
    Text(String),
    /// Bytes passed through unchanged.
    Raw(Vec<u8>),
    /// A JSON document, sent with a JSON content type.
    Json(String),
}

/// The HTTP reply the proxy sends back to its caller.
#[derive(Debug)]
pub struct Reply {
    pub status: u16,
    /// Headers to pass on; the application adds the content type its body
    /// kind implies.
    pub headers: Vec<(String, String)>,
    pub body: ReplyBody,
}

/// The request the proxy sends upstream.
#[derive(Debug)]
pub struct UpstreamRequest {
    pub url: String,
    pub method: String,
    pub headers: Vec<(String, String)>,
    /// `None` when the incoming body was empty.
    pub body: Option<Vec<u8>>,
}

/// What came of the upstream call.
#[derive(Debug)]
pub enum UpstreamOutcome {
    /// The request could not be sent or got no answer.
    Unreachable { error: String },
    /// The answer came but its body could not be read.
    BodyUnreadable,
    /// The upstream answered.
    Answered { status: u16, headers: Vec<(String, String)>, body: Vec<u8> },
}

/// What the capture endpoint made of the request body, as JSON.
#[derive(Debug)]
pub enum BodyJson {
    /// No body at all: read as JSON `null`.
    Empty,
    /// Not JSON; `error` is the parser's message.
    Invalid { error: String },
    /// A JSON document, with the fields the stub reads.
    Parsed(ChatRequest),
}

/// First step of a forwarded request.
#[derive(Debug)]
pub struct ForwardStart {
    /// The request record to store.
    pub record: CaptureRecord,
    /// The request to send upstream.
    pub upstream: UpstreamRequest,
}

/// Last step of a forwarded request.
#[derive(Debug)]
pub struct ForwardEnd {
    /// The response record to store, if any.
    pub record: Option<CaptureRecord>,
    /// The reply to the caller.
    pub reply: Reply,
}

/// First step of a captured request.
#[derive(Debug)]
pub enum CaptureStart {
    /// The request is refused with this reply; nothing is stored.
    Rejected(Reply),
    /// Store `record`, then answer with `stub`.
    Accepted { record: CaptureRecord, stub: StubReply },
}

/// Where a request goes, by its method and path.
#[derive(Debug, Clone, Copy, PartialEq, Eq, Structural)]
pub enum Route {
    /// Stored and answered with the stub (capture mode's chat endpoint).
    Capture,
    /// Sent to the upstream (forward mode).
    Forward,
    /// The uBlock filter list.
    UblockFilter,
    /// A served path asked with another method: 405.
    NotAllowed,
    /// A path capture mode does not serve: nothing leaves the machine.
    NotServed,
}

/// The path JanitorAI's proxy presets post chat completions to.
pub open spec fn chat_path() -> Seq<char> {
    "/v1/chat/completions"@
}

/// Where a request with this method and path (without its query) goes.
/// Capture mode answers the chat endpoint itself and serves nothing else
/// but the filter list; forward mode sends every other path upstream.
pub open spec fn route_of(method: Seq<char>, path: Seq<char>, mode: Mode) -> Route {
    if path == chat_path() {
        if method == "POST"@ {
            match mode {
                Mode::Capture => Route::Capture,
                Mode::Forward => Route::Forward,
            }
        } else {
            Route::NotAllowed
        }
    } else if path == "/ublock.txt"@ {
        if method == "GET"@ || method == "HEAD"@ {
            Route::UblockFilter
        } else {
            Route::NotAllowed
        }
    } else {
        match mode {
            Mode::Capture => Route::NotServed,
            Mode::Forward => Route::Forward,
        }
    }
}

/// The methods a served path accepts, as an `allow` header value.
pub open spec fn allowed_methods(path: Seq<char>) -> Seq<char> {
    if path == chat_path() {
        "POST"@
    } else {
        "GET,HEAD"@
    }
}

/// An OpenAI-style error object, as serde_json writes it:
/// `{"error":{"message":…,"type":…}}`.
pub open spec fn api_error_json(message: Seq<char>, kind: Seq<char>) -> Seq<char> {
    "{\"error\":{\"message\":"@ + json_quoted(message) + ",\"type\":"@ + json_quoted(kind) + "}}"@
}

/// The status a reply carries for an upstream status (what
/// `StatusCode::from_u16` accepts, else 502 Bad Gateway).
pub open spec fn reply_status(status: u16) -> u16 {
    if 100 <= status && status < 1000 {
        status
    } else {
        502
    }
}

/// Request headers that the upstream client sets itself.
pub open spec fn is_hop_header_out(name: Seq<char>) -> bool {
    let n = ascii_lower_seq(name);
    n == "host"@ || n == "content-length"@ || n == "transfer-encoding"@ || n == "connection"@
}

/// Response headers that the reply recomputes.
pub open spec fn is_hop_header_back(name: Seq<char>) -> bool {
    let n = ascii_lower_seq(name);
    n == "content-length"@ || n == "transfer-encoding"@ || n == "connection"@
}

/// The headers of `h` whose names `drop` does not select, in order.
pub open spec fn headers_without(h: HeadersView, drop: spec_fn(Seq<char>) -> bool) -> HeadersView {
    h.filter(|p: (Seq<char>, Seq<char>)| !drop(p.0))
}

/// The URL a request path is forwarded to: the upstream base without its
/// trailing slashes, then the path with its query.
pub open spec fn upstream_url(base: Seq<char>, path: Seq<char>) -> Seq<char> {
    trim_end_char(base, '/') + path
}

/// Whether `r` is the request record of a call with these parts: secret
/// exactly when one of its headers has a secret name.
pub open spec fn is_request_record(
    r: CaptureRecord,
    method: Seq<char>,
    path: Seq<char>,
    headers: HeadersView,
    body: Seq<char>,
) -> bool {
    &&& r.direction == Direction::Request
    &&& r@.method == method
    &&& r@.path == path
    &&& r.status is None
    &&& r@.headers == headers
    &&& r@.body == Some(body)
    &&& r.duration_ms is None
    &&& r.secret == if has_secret_header(headers) {
        SecretFlag::Secret
    } else {
        SecretFlag::Clean
    }
}

/// Whether `r` is a response record with these parts.
pub open spec fn is_response_record(
    r: CaptureRecord,
    path: Seq<char>,
    status: u16,
    headers: HeadersView,
    body: Seq<char>,
    duration_ms: u64,
) -> bool {
    &&& r.direction == Direction::Response
    &&& r@.method == Seq::<char>::empty()
    &&& r@.path == path
    &&& r.status == Some(status)
    &&& r@.headers == headers
    &&& r@.body == Some(body)
    &&& r.secret == SecretFlag::Clean
    &&& r.duration_ms == Some(duration_ms)
}

/// Whether `r` is a plain-text reply.
pub open spec fn is_text_reply(r: Reply, status: u16, text: Seq<char>) -> bool {
    &&& r.status == status
    &&& r.headers@.len() == 0
    &&& r.body matches ReplyBody::Text(t) && t@ == text
}

/// Whether `r` is an error-object reply.
pub open spec fn is_api_error_reply(r: Reply, status: u16, message: Seq<char>, kind: Seq<char>) -> bool {
    &&& r.status == status
    &&& r.headers@.len() == 0
    &&& r.body matches ReplyBody::Json(t) && t@ == api_error_json(message, kind)
}

/// The error object `{"error":{"message","type"}}` as JSON text.
fn api_error_text(message: &str, kind: &str) -> (res: String)
    ensures
        res@ == api_error_json(message@, kind@),
{
    let mut s = String::from_str("{\"error\":{\"message\":");
    s = s.concat(json_string(message).as_str());
    s = s.concat(",\"type\":");
    s = s.concat(json_string(kind).as_str());
    s.concat("}}")
}

/// An error-object reply.
fn api_error_reply(status: u16, message: &str, kind: &str) -> (res: Reply)
    ensures
        is_api_error_reply(res, status, message@, kind@),
{
    Reply { status, headers: Vec::new(), body: ReplyBody::Json(api_error_text(message, kind)) }
}

/// Where a request with this method and path (without its query) goes.
pub fn route(method: &str, path: &str, mode: Mode) -> (res: Route)
    ensures
        res == route_of(method@, path@, mode),
{
    if str_eq(path, "/v1/chat/completions") {
        if str_eq(method, "POST") {
            match mode {
                Mode::Capture => Route::Capture,
                Mode::Forward => Route::Forward,
            }
        } else {
            Route::NotAllowed
        }
    } else if str_eq(path, "/ublock.txt") {
        if str_eq(method, "GET") || str_eq(method, "HEAD") {
            Route::UblockFilter
        } else {
            Route::NotAllowed
        }
    } else {
        match mode {
            Mode::Capture => Route::NotServed,
            Mode::Forward => Route::Forward,
        }
    }
}

/// The reply to a served path asked with a method it does not take: 405,
/// with the methods it takes.
pub fn not_allowed(path: &str) -> (res: Reply)
    ensures
        res.status == 405,
        res.headers.deep_view() == seq![("allow"@, allowed_methods(path@))],
        res.body matches ReplyBody::Text(t) && t@ == Seq::<char>::empty(),
{
    let allow = if str_eq(path, "/v1/chat/completions") {
        String::from_str("POST")
    } else {
        String::from_str("GET,HEAD")
    };
    let mut headers: Vec<(String, String)> = Vec::new();
    headers.push((String::from_str("allow"), allow));
    assert(headers.deep_view() =~= seq![("allow"@, allowed_methods(path@))]);
    Reply { status: 405, headers, body: ReplyBody::Text(String::new()) }
}

/// The reply to a path capture mode does not serve: 404 `invalid_request_error`.
pub fn not_served() -> (res: Reply)
    ensures
        is_api_error_reply(res, 404, "not served in capture mode"@, "invalid_request_error"@),
{
    api_error_reply(404, "not served in capture mode", "invalid_request_error")
}

/// What the capture endpoint makes of a request body: nothing for an empty
/// body, else the body read as lossy UTF-8 text and parsed as JSON.
pub fn parse_capture_body(body: &[u8]) -> (res: BodyJson)
    ensures
        body@.len() == 0 <==> res is Empty,
        body@.len() > 0 ==> (res is Invalid <==> !json_text_is_valid(utf8_lossy(body@))),
        res matches BodyJson::Invalid { error } ==> error@ == json_parse_error(utf8_lossy(body@)),
        res matches BodyJson::Parsed(r) ==> chat_request_of_text(utf8_lossy(body@)) == Some(r@),
{
    if body.len() == 0 {
        BodyJson::Empty
    } else {
        let text = text_from_bytes_lossy(body);
        match parse_chat_request(text.as_str()) {
            Ok(req) => BodyJson::Parsed(req),
            Err(error) => BodyJson::Invalid { error },
        }
    }
}

/// Whether a header name, compared ASCII case-insensitively, is one of `names`.
fn name_in(name: &str, names: &[&str]) -> (res: bool)
    ensures
        res == exists|i: int| 0 <= i < names@.len() && ascii_lower_seq(name@) == #[trigger] names@[i]@,
{
    let lower = to_ascii_lower(name);
    let mut i: usize = 0;
    while i < names.len()
        invariant
            i <= names@.len(),
            lower@ == ascii_lower_seq(name@),
            forall|j: int| 0 <= j < i ==> ascii_lower_seq(name@) != #[trigger] names@[j]@,
        decreases names.len() - i,
    {
        if str_eq(lower.as_str(), names[i]) {
            return true;
        }
        i = i + 1;
    }
    false
}

/// A copy of the headers without the hop-by-hop ones: those the upstream
/// client sets itself when `outgoing`, else those the reply recomputes.
fn filter_headers(headers: &Vec<(String, String)>, outgoing: bool) -> (res: Vec<(String, String)>)
    ensures
        res.deep_view() == headers_without(
            headers.deep_view(),
            if outgoing {
                |n: Seq<char>| is_hop_header_out(n)
            } else {
                |n: Seq<char>| is_hop_header_back(n)
            },
        ),
{
    let ghost drop = if outgoing {
        |n: Seq<char>| is_hop_header_out(n)
    } else {
        |n: Seq<char>| is_hop_header_back(n)
    };
    let mut res: Vec<(String, String)> = Vec::new();
    let mut i: usize = 0;
    while i < headers.len()
        invariant
            i <= headers.len(),
            drop == (if outgoing {
                |n: Seq<char>| is_hop_header_out(n)
            } else {
                |n: Seq<char>| is_hop_header_back(n)
            }),
            res.deep_view() == headers_without(headers.deep_view().take(i as int), drop),
        decreases headers.len() - i,
    {
        let (k, v) = &headers[i];
        let hop = if outgoing {
            name_in(k.as_str(), &["host", "content-length", "transfer-encoding", "connection"])
        } else {
            name_in(k.as_str(), &["content-length", "transfer-encoding", "connection"])
        };
        let ghost before = res.deep_view();
        proof {
            let h = headers.deep_view();
            assert(h.take(i + 1) =~= h.take(i as int).push(h[i as int]));
            reveal(Seq::filter);
            assert(h.take(i + 1).drop_last() =~= h.take(i as int));
        }
        if !hop {
            res.push((k.clone(), v.clone()));
            proof {
                assert(res.deep_view() =~= before.push(headers.deep_view()[i as int]));
            }
        } else {
            proof {
                assert(res.deep_view() =~= before);
            }
        }
        i = i + 1;
    }
    assert(headers.deep_view().take(headers.len() as int) =~= headers.deep_view());
    res
}

/// A plain-text reply.
fn text_reply(status: u16, text: &str) -> (res: Reply)
    ensures
        is_text_reply(res, status, text@),
{
    Reply { status, headers: Vec::new(), body: ReplyBody::Text(String::from_str(text)) }
}

/// The request record of a call: flagged secret exactly when one of its
/// headers has a secret name.
pub fn request_record(
    method: &str,
    path: &str,
    headers: Vec<(String, String)>,
    body: String,
) -> (res: CaptureRecord)
    ensures
        is_request_record(res, method@, path@, headers.deep_view(), body@),
{
    let secret = any_secret_header(&headers);
    let mut rec = CaptureRecord::request(method, path, headers, Some(body));
    if secret {
        rec.secret = SecretFlag::Secret;
    }
    rec
}

/// The reply that serves the uBlock filter list, as plain text.
pub fn ublock_filter() -> (res: Reply)
    ensures
        res.status == 200,
        res.headers.deep_view() == seq![("content-type"@, "text/plain"@)],
        res.body matches ReplyBody::Text(t) && t@ == UBLOCK_FILTER@,
{
    let mut headers: Vec<(String, String)> = Vec::new();
    headers.push((String::from_str("content-type"), String::from_str("text/plain")));
    assert(headers.deep_view() =~= seq![("content-type"@, "text/plain"@)]);
    Reply { status: 200, headers, body: ReplyBody::Text(String::from_str(UBLOCK_FILTER)) }
}

/// The reply when no HTTP client could be set up to call the upstream:
/// 500 with the client's error.
pub fn client_unavailable(error: &str) -> (res: Reply)
    ensures
        is_text_reply(res, 500, "client error: "@ + error@),
{
    Reply {
        status: 500,
        headers: Vec::new(),
        body: ReplyBody::Text(String::from_str("client error: ").concat(error)),
    }
}

/// The reply to a request whose body exceeds the size limit: 413, `body too large`.
pub fn body_too_large() -> (res: Reply)
    ensures
        is_text_reply(res, 413, "body too large"@),
{
    text_reply(413, "body too large")
}

/// First step of forwarding: the request record (body read as lossy UTF-8
/// text) and the upstream request, which keeps the method, drops the
/// headers the client sets itself, and sends the body only when it is not
/// empty.
pub fn begin_forward(
    upstream_base: &str,
    method: &str,
    path: &str,
    headers: Vec<(String, String)>,
    body: Vec<u8>,
) -> (res: ForwardStart)
    ensures
        is_request_record(res.record, method@, path@, headers.deep_view(), utf8_lossy(body@)),
        res.upstream.url@ == upstream_url(upstream_base@, path@),
        res.upstream.method@ == method@,
        res.upstream.headers.deep_view() == headers_without(
            headers.deep_view(),
            |n: Seq<char>| is_hop_header_out(n),
        ),
        res.upstream.body == if body@.len() == 0 {
            None
        } else {
            Some(body)
        },
        valid_utf8(body@) ==> res.record@.body == Some(decode_utf8(body@)),
{
    let text = text_from_bytes_lossy(body.as_slice());
    let sent_headers = filter_headers(&headers, true);
    let record = request_record(method, path, headers, text);
    let url = trim_end(upstream_base, '/').concat(path);
    let sent_body = if body.len() == 0 {
        None
    } else {
        Some(body)
    };
    ForwardStart {
        record,
        upstream: UpstreamRequest {
            url,
            method: String::from_str(method),
            headers: sent_headers,
            body: sent_body,
        },
    }
}

/// Last step of forwarding. An unreachable upstream is recorded and
/// answered as 502 with the error; an unreadable body is answered 502
/// without a record; an answer is recorded and returned to the caller with
/// its status and body unchanged, minus the headers the reply recomputes.
pub fn finish_forward(path: &str, outcome: UpstreamOutcome, duration_ms: u64) -> (res: ForwardEnd)
    ensures
        match outcome {
            UpstreamOutcome::Unreachable { error } => {
                &&& res.record matches Some(r) && is_response_record(
                    r,
                    path@,
                    502,
                    Seq::empty(),
                    "upstream error: "@ + error@,
                    duration_ms,
                )
                &&& is_text_reply(res.reply, 502, "upstream error: "@ + error@)
            },
            UpstreamOutcome::BodyUnreadable => {
                &&& res.record is None
                &&& is_text_reply(res.reply, 502, "upstream body read failed"@)
            },
            UpstreamOutcome::Answered { status, headers, body } => {
                &&& res.record matches Some(r) && is_response_record(
                    r,
                    path@,
                    status,
                    headers.deep_view(),
                    utf8_lossy(body@),
                    duration_ms,
                )
                &&& res.reply.status == reply_status(status)
                &&& res.reply.headers.deep_view() == headers_without(
                    headers.deep_view(),
                    |n: Seq<char>| is_hop_header_back(n),
                )
                &&& res.reply.body == ReplyBody::Raw(body)
                &&& valid_utf8(body@) ==> (res.record matches Some(r) && r@.body == Some(
                    decode_utf8(body@),
                ))
            },
        },
{
    match outcome {
        UpstreamOutcome::Unreachable { error } => {
            let message = String::from_str("upstream error: ").concat(error.as_str());
            let reply_text = message.clone();
            let no_headers: Vec<(String, String)> = Vec::new();
            assert(no_headers.deep_view() =~= Seq::<(Seq<char>, Seq<char>)>::empty());
            let record = CaptureRecord::response(path, 502, no_headers, Some(message), duration_ms);
            ForwardEnd {
                record: Some(record),
                reply: Reply { status: 502, headers: Vec::new(), body: ReplyBody::Text(reply_text) },
            }
        },
        UpstreamOutcome::BodyUnreadable => ForwardEnd {
            record: None,
            reply: text_reply(502, "upstream body read failed"),
        },
        UpstreamOutcome::Answered { status, headers, body } => {
            let text = text_from_bytes_lossy(body.as_slice());
            let reply_headers = filter_headers(&headers, false);
            let record = CaptureRecord::response(path, status, headers, Some(text), duration_ms);
            let code = if 100 <= status && status < 1000 {
                status
            } else {
                502
            };
            ForwardEnd {
                record: Some(record),
                reply: Reply { status: code, headers: reply_headers, body: ReplyBody::Raw(body) },
            }
        },
    }
}

/// The request of a capture with no body: JSON `null`, no field to read.
pub open spec fn null_request() -> ChatRequestView {
    ChatRequestView { model: None, messages: None }
}

/// First step of capture mode. A body that is not JSON is refused with 400
/// and an `invalid_request_error` carrying the parser's message; otherwise
/// the request record (body read as lossy UTF-8 text) is to be stored and
/// the stub for the parsed body (JSON `null` when there is no body) is the
/// answer.
pub fn begin_capture(
    method: &str,
    path: &str,
    headers: Vec<(String, String)>,
    body: &[u8],
) -> (res: CaptureStart)
    ensures
        body@.len() > 0 && !json_text_is_valid(utf8_lossy(body@)) ==> (res matches CaptureStart::Rejected(
            reply,
        ) && is_api_error_reply(
            reply,
            400,
            "body is not valid JSON: "@ + json_parse_error(utf8_lossy(body@)),
            "invalid_request_error"@,
        )),
        body@.len() == 0 ==> (res matches CaptureStart::Accepted { record, stub }
            && is_request_record(record, method@, path@, headers.deep_view(), utf8_lossy(body@))
            && is_stub_answer(stub, null_request())),
        body@.len() > 0 && json_text_is_valid(utf8_lossy(body@)) ==> (res matches CaptureStart::Accepted {
            record,
            stub,
        } && is_request_record(record, method@, path@, headers.deep_view(), utf8_lossy(body@))
            && (chat_request_of_text(utf8_lossy(body@)) matches Some(req) && is_stub_answer(stub, req))),
        valid_utf8(body@) ==> (res matches CaptureStart::Accepted { record, .. } ==> record@.body
            == Some(decode_utf8(body@))),
{
    match parse_capture_body(body) {
        BodyJson::Invalid { error } => {
            let message = String::from_str("body is not valid JSON: ").concat(error.as_str());
            CaptureStart::Rejected(
                api_error_reply(400, message.as_str(), "invalid_request_error"),
            )
        },
        BodyJson::Empty => {
            let req = ChatRequest { model: None, messages: None };
            let record = request_record(method, path, headers, text_from_bytes_lossy(body));
            let stub = stub_response(&req);
            CaptureStart::Accepted { record, stub }
        },
        BodyJson::Parsed(req) => {
            let record = request_record(method, path, headers, text_from_bytes_lossy(body));
            let stub = stub_response(&req);
            CaptureStart::Accepted { record, stub }
        },
    }
}

/// The reply when the request record could not be stored: 500 `api_error`.
pub fn capture_store_failed() -> (res: Reply)
    ensures
        is_api_error_reply(res, 500, "capture store failed"@, "api_error"@),
{
    api_error_reply(500, "capture store failed", "api_error")
}

/// The response record of a capture: status 200, a JSON content type, and
/// the stub's JSON text as sent.
pub fn capture_response_record(path: &str, stub: &StubReply, duration_ms: u64) -> (res: CaptureRecord)
    ensures
        is_response_record(
            res,
            path@,
            200,
            seq![("content-type"@, "application/json"@)],
            stub_json_text(*stub),
            duration_ms,
        ),
{
    let mut headers: Vec<(String, String)> = Vec::new();
    headers.push((String::from_str("content-type"), String::from_str("application/json")));
    let ghost h = headers.deep_view();
    assert(h =~= seq![("content-type"@, "application/json"@)]);
    CaptureRecord::response(path, 200, headers, Some(stub.to_json()), duration_ms)
}

/// The reply that answers a stored capture: 200 with the stub's JSON text,
/// the same text the response record holds.
pub fn capture_reply(stub: &StubReply) -> (res: Reply)
    ensures
        res.status == 200,
        res.headers@.len() == 0,
        res.body matches ReplyBody::Json(t) && t@ == stub_json_text(*stub),
{
    Reply { status: 200, headers: Vec::new(), body: ReplyBody::Json(stub.to_json()) }
}

/// In capture mode no request is routed upstream: the chat endpoint is
/// answered by the stub and every other path but the filter list is refused.
pub proof fn lemma_capture_mode_contacts_nothing(method: Seq<char>, path: Seq<char>)
    ensures
        route_of(method, path, Mode::Capture) != Route::Forward,
{
}

/// The headers that go upstream are exactly the caller's headers, in their
/// order, without those named (in any ASCII case) `host`, `content-length`,
/// `transfer-encoding` or `connection`.
pub proof fn lemma_forwarded_headers(headers: HeadersView)
    ensures
        headers_without(headers, |n: Seq<char>| is_hop_header_out(n)) == headers.filter(
            |p: (Seq<char>, Seq<char>)|
                !(ascii_lower_seq(p.0) == "host"@ || ascii_lower_seq(p.0) == "content-length"@
                    || ascii_lower_seq(p.0) == "transfer-encoding"@ || ascii_lower_seq(p.0)
                    == "connection"@),
        ),
{
    let a = |p: (Seq<char>, Seq<char>)| !(|n: Seq<char>| is_hop_header_out(n))(p.0);
    let b = |p: (Seq<char>, Seq<char>)|
        !(ascii_lower_seq(p.0) == "host"@ || ascii_lower_seq(p.0) == "content-length"@
            || ascii_lower_seq(p.0) == "transfer-encoding"@ || ascii_lower_seq(p.0)
            == "connection"@);
    assert(a =~= b);
}

/// The headers passed back to the caller are exactly the upstream's, in
/// their order, without those named (in any ASCII case) `content-length`,
/// `transfer-encoding` or `connection`.
pub proof fn lemma_returned_headers(headers: HeadersView)
    ensures
        headers_without(headers, |n: Seq<char>| is_hop_header_back(n)) == headers.filter(
            |p: (Seq<char>, Seq<char>)|
                !(ascii_lower_seq(p.0) == "content-length"@ || ascii_lower_seq(p.0)
                    == "transfer-encoding"@ || ascii_lower_seq(p.0) == "connection"@),
        ),
{
    let a = |p: (Seq<char>, Seq<char>)| !(|n: Seq<char>| is_hop_header_back(n))(p.0);
    let b = |p: (Seq<char>, Seq<char>)|
        !(ascii_lower_seq(p.0) == "content-length"@ || ascii_lower_seq(p.0)
            == "transfer-encoding"@ || ascii_lower_seq(p.0) == "connection"@);
    assert(a =~= b);
}

/// An upstream status from 100 to 999 reaches the caller unchanged; only a
/// status outside that range becomes 502 Bad Gateway.
pub proof fn lemma_upstream_status_passes_through(status: u16)
    ensures
        100 <= status && status <= 999 ==> reply_status(status) == status,
        (status < 100 || status > 999) ==> reply_status(status) == 502,
{
}

/// Where requests go. Forward mode sends every request upstream, whatever
/// its method, except on the two paths it serves itself; capture mode sends
/// none and refuses every other path. The chat endpoint takes POST (stored
/// and stubbed in capture mode, forwarded in forward mode) and the filter
/// list takes GET and HEAD in either mode; other methods there get 405.
pub proof fn lemma_routing_by_mode_method_and_path(method: Seq<char>, path: Seq<char>, mode: Mode)
    ensures
        path != "/v1/chat/completions"@ && path != "/ublock.txt"@ ==> route_of(
            method,
            path,
            Mode::Forward,
        ) == Route::Forward,
        path != "/v1/chat/completions"@ && path != "/ublock.txt"@ ==> route_of(
            method,
            path,
            Mode::Capture,
        ) == Route::NotServed,
        route_of("POST"@, "/v1/chat/completions"@, Mode::Forward) == Route::Forward,
        route_of("POST"@, "/v1/chat/completions"@, Mode::Capture) == Route::Capture,
        method != "POST"@ ==> route_of(method, "/v1/chat/completions"@, mode) == Route::NotAllowed,
        method == "GET"@ || method == "HEAD"@ ==> route_of(method, "/ublock.txt"@, mode)
            == Route::UblockFilter,
        method != "GET"@ && method != "HEAD"@ ==> route_of(method, "/ublock.txt"@, mode)
            == Route::NotAllowed,
{
    reveal_strlit("/ublock.txt");
    reveal_strlit("/v1/chat/completions");
    assert("/ublock.txt"@.len() != "/v1/chat/completions"@.len());
}

/// The caller's credentials travel upstream unchanged: every header with a
/// secret name (authorization, cookies, API keys) is among the forwarded ones.
pub proof fn lemma_credentials_are_forwarded(headers: HeadersView, i: int)
    requires
        0 <= i < headers.len(),
        is_secret_name(headers[i].0),
    ensures
        headers_without(headers, |n: Seq<char>| is_hop_header_out(n)).contains(headers[i]),
{
    let n = ascii_lower_seq(headers[i].0);
    reveal_strlit("authorization");
    reveal_strlit("proxy-authorization");
    reveal_strlit("cookie");
    reveal_strlit("set-cookie");
    reveal_strlit("x-api-key");
    reveal_strlit("x-janitor-ai-key");
    reveal_strlit("host");
    reveal_strlit("content-length");
    reveal_strlit("transfer-encoding");
    reveal_strlit("connection");
    // The only secret name as long as a hop-by-hop name is `set-cookie`,
    // which differs from `connection` in its first letter.
    assert(!is_hop_header_out(headers[i].0)) by {
        if n.len() == 10 {
            assert(n == "set-cookie"@ ==> n[0] == 's');
        }
    }
    let pred = |p: (Seq<char>, Seq<char>)| !(|n: Seq<char>| is_hop_header_out(n))(p.0);
    headers.lemma_filter_contains(pred, i);
}

} // verus!
