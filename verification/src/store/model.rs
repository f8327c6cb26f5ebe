//! One captured half (request or response) of a proxied exchange.

use vstd::prelude::*;
use vstd::string::*;
use crate::text::{ascii_lower, ascii_lower_seq, str_eq, to_ascii_lower};
use crate::ident::new_uuid;
use crate::json::{json_compact, json_has_float, json_pretty, json_text_is_valid, pretty_json_text};
use crate::time::{Timestamp, now, timestamp_representable};

verus! {

/// Which half of an exchange a record holds.
#[derive(Debug, Clone, Copy, PartialEq, Eq, Structural)]
pub enum Direction {
    Request,
    Response,
}

/// Whether a record carries authorization or session material.
#[derive(Debug, Clone, Copy, PartialEq, Eq, Structural)]
pub enum SecretFlag {
    Clean,
    /// Contains authorization/session material: the UI redacts it by default.
    Secret,
}

/// One captured HTTP half (request or response) of the proxy exchange.
///
/// `id` is the 128-bit value of the record's UUID (big-endian, as
/// `Uuid::as_u128` gives it); `timestamp` is the capture time, UTC, to the
/// nanosecond.
#[derive(Debug)]
pub struct CaptureRecord {
    pub id: u128,
    pub direction: Direction,
    pub timestamp: Timestamp,
    pub method: String,
    pub path: String,
    pub status: Option<u16>,
    /// Header names with their values, in the order they arrived.
    pub headers: Vec<(String, String)>,
    pub secret: SecretFlag,
    pub body: Option<String>,
    /// Milliseconds spent on the upstream call.
    pub duration_ms: Option<u64>,
}

/// Mathematical model of a header list: names and values as character sequences.
pub type HeadersView = Seq<(Seq<char>, Seq<char>)>;

/// Mathematical model of a [`CaptureRecord`].
pub struct RecordView {
    pub id: u128,
    pub direction: Direction,
    pub timestamp: Timestamp,
    pub method: Seq<char>,
    pub path: Seq<char>,
    pub status: Option<u16>,
    pub headers: HeadersView,
    pub secret: SecretFlag,
    pub body: Option<Seq<char>>,
    pub duration_ms: Option<u64>,
}

impl View for CaptureRecord {
    type V = RecordView;

    open spec fn view(&self) -> RecordView {
        RecordView {
            id: self.id,
            direction: self.direction,
            timestamp: self.timestamp,
            method: self.method@,
            path: self.path@,
            status: self.status,
            headers: self.headers.deep_view(),
            secret: self.secret,
            body: self.body.deep_view(),
            duration_ms: self.duration_ms,
        }
    }
}

/// The text shown in place of a secret header value.
pub open spec fn redaction_marker() -> Seq<char> {
    "«redacted»"@
}

/// Header names that always carry credentials, compared after ASCII lower-casing.
pub open spec fn is_secret_name(name: Seq<char>) -> bool {
    let n = ascii_lower_seq(name);
    ||| n == "authorization"@
    ||| n == "proxy-authorization"@
    ||| n == "cookie"@
    ||| n == "set-cookie"@
    ||| n == "x-api-key"@
    ||| n == "x-janitor-ai-key"@
}

/// Whether any header of the list has a secret name.
pub open spec fn has_secret_header(headers: HeadersView) -> bool {
    exists|i: int| 0 <= i < headers.len() && is_secret_name(#[trigger] headers[i].0)
}

/// A header as the UI shows it: secret values replaced by the marker.
pub open spec fn redact_pair(p: (Seq<char>, Seq<char>)) -> (Seq<char>, Seq<char>) {
    if is_secret_name(p.0) {
        (p.0, redaction_marker())
    } else {
        p
    }
}

/// A header list as the UI shows it.
pub open spec fn redacted_view(headers: HeadersView) -> HeadersView {
    headers.map_values(|p: (Seq<char>, Seq<char>)| redact_pair(p))
}

/// Whether any header of the list has a secret name.
pub fn any_secret_header(headers: &Vec<(String, String)>) -> (res: bool)
    ensures
        res == has_secret_header(headers.deep_view()),
{
    let mut i: usize = 0;
    while i < headers.len()
        invariant
            i <= headers.len(),
            forall|j: int| 0 <= j < i ==> !is_secret_name(#[trigger] headers.deep_view()[j].0),
        decreases headers.len() - i,
    {
        if CaptureRecord::is_secret_header(headers[i].0.as_str()) {
            assert(is_secret_name(headers.deep_view()[i as int].0));
            return true;
        }
        i = i + 1;
    }
    false
}

impl CaptureRecord {
    /// A request record with a fresh id and the current time (a representable
    /// instant, not a leap second); not flagged secret.
    pub fn request(
        method: &str,
        path: &str,
        headers: Vec<(String, String)>,
        body: Option<String>,
    ) -> (res: Self)
        ensures
            res.direction == Direction::Request,
            res.method@ == method@,
            res.path@ == path@,
            res.status is None,
            res.headers == headers,
            res.secret == SecretFlag::Clean,
            res.body == body,
            res.duration_ms is None,
            res.timestamp.nanos < 1_000_000_000,
            timestamp_representable(res.timestamp),
    {
        CaptureRecord {
            id: new_uuid(),
            direction: Direction::Request,
            timestamp: now(),
            method: String::from_str(method),
            path: String::from_str(path),
            status: None,
            headers,
            secret: SecretFlag::Clean,
            body,
            duration_ms: None,
        }
    }

    /// A response record with a fresh id and the current time; its method is
    /// empty and it is not flagged secret.
    pub fn response(
        path: &str,
        status: u16,
        headers: Vec<(String, String)>,
        body: Option<String>,
        duration_ms: u64,
    ) -> (res: Self)
        ensures
            res.direction == Direction::Response,
            res.method@ == Seq::<char>::empty(),
            res.path@ == path@,
            res.status == Some(status),
            res.headers == headers,
            res.secret == SecretFlag::Clean,
            res.body == body,
            res.duration_ms == Some(duration_ms),
            res.timestamp.nanos < 1_000_000_000,
            timestamp_representable(res.timestamp),
    {
        CaptureRecord {
            id: new_uuid(),
            direction: Direction::Response,
            timestamp: now(),
            method: String::new(),
            path: String::from_str(path),
            status: Some(status),
            headers,
            secret: SecretFlag::Clean,
            body,
            duration_ms: Some(duration_ms),
        }
    }

    /// Whether a header name always carries credentials (ASCII case-insensitive).
    pub fn is_secret_header(name: &str) -> (res: bool)
        ensures
            res == is_secret_name(name@),
    {
        let n = to_ascii_lower(name);
        let n = n.as_str();
        str_eq(n, "authorization") || str_eq(n, "proxy-authorization") || str_eq(n, "cookie")
            || str_eq(n, "set-cookie") || str_eq(n, "x-api-key") || str_eq(n, "x-janitor-ai-key")
    }

    /// The headers as the UI shows them: same names and order, each value of a
    /// secret header replaced by the redaction marker.
    pub fn redacted_headers(&self) -> (res: Vec<(String, String)>)
        ensures
            res.deep_view() == redacted_view(self.headers.deep_view()),
    {
        let mut res: Vec<(String, String)> = Vec::new();
        let mut i: usize = 0;
        while i < self.headers.len()
            invariant
                i <= self.headers.len(),
                res.len() == i,
                forall|j: int|
                    0 <= j < i ==> #[trigger] res@[j].deep_view() == redact_pair(
                        self.headers@[j].deep_view(),
                    ),
            decreases self.headers.len() - i,
        {
            let (k, v) = &self.headers[i];
            if Self::is_secret_header(k.as_str()) {
                res.push((k.clone(), String::from_str("«redacted»")));
            } else {
                res.push((k.clone(), v.clone()));
            }
            i = i + 1;
        }
        assert(res.deep_view() =~= redacted_view(self.headers.deep_view()));
        res
    }

    /// The body pretty-printed (two-space indentation), when there is one
    /// and it is well-formed JSON. When the body holds no float, the pretty
    /// text is well-formed JSON of the same value.
    pub fn body_pretty(&self) -> (res: Option<String>)
        ensures
            res is Some <==> (self.body matches Some(b) && json_text_is_valid(b@)),
            res matches Some(p) ==> (self.body matches Some(b) && p@ == json_pretty(b@)),
            res matches Some(p) ==> (self.body matches Some(b) && (!json_has_float(b@) ==> (
            json_text_is_valid(p@) && json_compact(p@) == json_compact(b@)))),
    {
        match &self.body {
            None => None,
            Some(raw) => pretty_json_text(raw.as_str()),
        }
    }
}

/// Lower-casing a character twice changes nothing more than doing it once.
pub proof fn lemma_ascii_lower_idempotent(s: Seq<char>)
    ensures
        ascii_lower_seq(ascii_lower_seq(s)) == ascii_lower_seq(s),
{
    assert forall|i: int| 0 <= i < s.len() implies ascii_lower(ascii_lower(s[i])) == ascii_lower(
        s[i],
    ) by {}
    assert(ascii_lower_seq(ascii_lower_seq(s)) =~= ascii_lower_seq(s));
}

/// Secret header names are recognised whatever the ASCII case of their letters:
/// a name and its lower-cased form are classified alike.
pub proof fn lemma_secret_name_ignores_case(name: Seq<char>)
    ensures
        is_secret_name(ascii_lower_seq(name)) == is_secret_name(name),
{
    lemma_ascii_lower_idempotent(name);
}

/// Redaction keeps the number, order and names of the headers, and redacting
/// an already redacted list changes nothing.
pub proof fn lemma_redaction_keeps_names_and_is_idempotent(headers: HeadersView)
    ensures
        redacted_view(headers).len() == headers.len(),
        forall|i: int| 0 <= i < headers.len() ==> #[trigger] redacted_view(headers)[i].0 == headers[i].0,
        redacted_view(redacted_view(headers)) == redacted_view(headers),
{
    assert(redacted_view(redacted_view(headers)) =~= redacted_view(headers));
}

/// A value that only ever appears under secret header names, and is not the
/// marker itself, appears nowhere in the redacted list.
pub proof fn lemma_redaction_hides_secret_values(headers: HeadersView, value: Seq<char>)
    requires
        value != redaction_marker(),
        forall|i: int|
            0 <= i < headers.len() && #[trigger] headers[i].1 == value ==> is_secret_name(headers[i].0),
    ensures
        forall|j: int| 0 <= j < headers.len() ==> #[trigger] redacted_view(headers)[j].1 != value,
{
    assert forall|j: int| 0 <= j < headers.len() implies #[trigger] redacted_view(headers)[j].1
        != value by {
        if headers[j].1 == value {
            assert(is_secret_name(headers[j].0));
        }
    }
}

/// A header name is secret exactly when, ASCII lower-cased, it is one of
/// `authorization`, `proxy-authorization`, `cookie`, `set-cookie`,
/// `x-api-key` or `x-janitor-ai-key`; no other name is.
pub proof fn lemma_secret_names_are_exactly(name: Seq<char>)
    ensures
        is_secret_name(name) <==> {
            let n = ascii_lower_seq(name);
            n == "authorization"@ || n == "proxy-authorization"@ || n == "cookie"@ || n
                == "set-cookie"@ || n == "x-api-key"@ || n == "x-janitor-ai-key"@
        },
{
}

} // verus!
