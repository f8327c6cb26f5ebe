//! The calls into serde_json that the library makes, with what they promise.

use vstd::prelude::*;
use crate::store::model::HeadersView;
use crate::text::hex_fixed;

verus! {

/// Whether `text` is exactly one well-formed JSON document (surrounding
/// whitespace allowed), as `serde_json::from_str::<Value>` decides it.
pub uninterp spec fn json_text_is_valid(text: Seq<char>) -> bool;

/// The text `serde_json::to_string_pretty` writes for the document that
/// `serde_json::from_str::<Value>` reads from `text`: two-space indentation,
/// one member or element per line.
pub uninterp spec fn json_pretty(text: Seq<char>) -> Seq<char>;

/// Whether the document `serde_json::from_str::<Value>` reads from `text`
/// holds a number it keeps as a float: one written with a fraction or an
/// exponent, `-0`, or an integer outside the `i64` and `u64` ranges.
pub uninterp spec fn json_has_float(text: Seq<char>) -> bool;

/// The compact text `serde_json::to_string` writes for the document
/// `serde_json::from_str::<Value>` reads from `text` (object keys sorted).
/// Two documents whose values are equal give the same text here.
pub uninterp spec fn json_compact(text: Seq<char>) -> Seq<char>;

/// The message of the error `serde_json::from_str::<Value>` reports on `text`
/// (its `Display` text, with the line and column).
pub uninterp spec fn json_parse_error(text: Seq<char>) -> Seq<char>;

/// How serde_json writes one character inside a JSON string: the quote and
/// the backslash escaped, the control characters U+0000 to U+001F as their
/// short escape or as `\u00` and two lower-case hexadecimal digits, every
/// other character as itself.
pub open spec fn json_escape_char(c: char) -> Seq<char> {
    if c == '"' {
        seq!['\\', '"']
    } else if c == '\\' {
        seq!['\\', '\\']
    } else if c == '\u{08}' {
        seq!['\\', 'b']
    } else if c == '\t' {
        seq!['\\', 't']
    } else if c == '\n' {
        seq!['\\', 'n']
    } else if c == '\u{0c}' {
        seq!['\\', 'f']
    } else if c == '\r' {
        seq!['\\', 'r']
    } else if (c as u32) < 0x20 {
        seq!['\\', 'u', '0', '0'] + hex_fixed(c as int, 2)
    } else {
        seq![c]
    }
}

/// `s` as a JSON string literal, as serde_json writes it.
pub open spec fn json_quoted(s: Seq<char>) -> Seq<char> {
    seq!['"'] + s.map_values(|c: char| json_escape_char(c)).flatten() + seq!['"']
}

/// `serde_json::from_str::<Value>` followed by `serde_json::to_string_pretty`:
/// the pretty text exactly for well-formed JSON. A parsed `Value` has only
/// string map keys and serialises without error, so the second call cannot
/// fail. When the document holds no float, parsing the pretty text gives the
/// same value back: strings, integers, literals, arrays and objects are
/// written exactly. Floats are left out because without serde_json's
/// `float_roundtrip` feature its float parser is not correctly rounded, so
/// reading a written float back can give a neighbouring one.
#[verifier::external_body]
pub(crate) fn pretty_json_text(text: &str) -> (res: Option<String>)
    ensures
        res is Some <==> json_text_is_valid(text@),
        res matches Some(p) ==> p@ == json_pretty(text@),
        res matches Some(p) ==> (!json_has_float(text@) ==> (json_text_is_valid(p@)
            && !json_has_float(p@) && json_compact(p@) == json_compact(text@))),
{
    match serde_json::from_str::<serde_json::Value>(text) {
        Ok(v) => serde_json::to_string_pretty(&v).ok(),
        Err(_) => None,
    }
}

/// `serde_json::to_string` on a string: the string as a JSON literal. A
/// string always serialises, so the error case does not occur.
#[verifier::external_body]
pub(crate) fn json_string(s: &str) -> (res: String)
    ensures
        res@ == json_quoted(s@),
{
    serde_json::to_string(s).unwrap_or_default()
}

/// One (name, value) pair as serde_json writes a tuple of two strings:
/// `["name","value"]`.
pub open spec fn json_pair(p: (Seq<char>, Seq<char>)) -> Seq<char> {
    seq!['['] + json_quoted(p.0) + seq![','] + json_quoted(p.1) + seq![']']
}

/// The pairs of a list as JSON, separated by commas.
pub open spec fn json_pair_items(headers: HeadersView) -> Seq<char>
    decreases headers.len(),
{
    if headers.len() == 0 {
        Seq::empty()
    } else if headers.len() == 1 {
        json_pair(headers[0])
    } else {
        json_pair_items(headers.drop_last()) + seq![','] + json_pair(headers.last())
    }
}

/// The text `serde_json::to_string` gives for a list of (name, value)
/// string pairs: a compact JSON array of two-string arrays.
pub open spec fn headers_json(headers: HeadersView) -> Seq<char> {
    seq!['['] + json_pair_items(headers) + seq![']']
}

/// What `serde_json::from_str::<Vec<(String, String)>>` reads from `text`,
/// `None` where it reports an error.
pub uninterp spec fn headers_of_json(text: Seq<char>) -> Option<HeadersView>;

/// `serde_json::to_string` on a header list. A list of pairs of strings has
/// no map and its `Serialize` never fails, so serde_json's two error causes
/// cannot occur: the result is `Ok`. Its text is `headers_json`, and
/// `serde_json::from_str` reads the same pairs back from it.
#[verifier::external_body]
pub(crate) fn headers_to_json(headers: &Vec<(String, String)>) -> (res: Result<String, ()>)
    ensures
        res is Ok,
        res matches Ok(t) ==> t@ == headers_json(headers.deep_view()),
        res matches Ok(t) ==> headers_of_json(t@) == Some(headers.deep_view()),
{
    serde_json::to_string(headers).map_err(|_| ())
}

/// `serde_json::from_str::<Vec<(String, String)>>`, errors mapped to `None`.
#[verifier::external_body]
pub(crate) fn headers_from_json(text: &str) -> (res: Option<Vec<(String, String)>>)
    ensures
        res is Some <==> headers_of_json(text@) is Some,
        res matches Some(h) ==> headers_of_json(text@) == Some(h.deep_view()),
{
    serde_json::from_str::<Vec<(String, String)>>(text).ok()
}

} // verus!
