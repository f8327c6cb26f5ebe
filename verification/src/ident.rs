//! Record and completion identifiers: UUIDs held as 128-bit integers.

use vstd::prelude::*;
use crate::text::hex_fixed;

verus! {

/// The 32 lower-case hexadecimal digits of a UUID (uuid's "simple" form).
pub open spec fn uuid_simple(id: u128) -> Seq<char> {
    hex_fixed(id as int, 32)
}

/// The lower-case hyphenated form of a UUID: 8-4-4-4-12 hexadecimal digits.
pub open spec fn uuid_hyphenated(id: u128) -> Seq<char> {
    let s = uuid_simple(id);
    s.subrange(0, 8) + seq!['-'] + s.subrange(8, 12) + seq!['-'] + s.subrange(12, 16) + seq!['-']
        + s.subrange(16, 20) + seq!['-'] + s.subrange(20, 32)
}

/// What `Uuid::from_str` reads from `text` (as `as_u128`), `None` where it
/// reports an error.
pub uninterp spec fn uuid_parse(text: Seq<char>) -> Option<u128>;

/// `Uuid::new_v4().as_u128()`: a fresh random UUID; nothing is stated of its value.
#[verifier::external_body]
pub(crate) fn new_uuid() -> u128 {
    uuid::Uuid::new_v4().as_u128()
}

/// `Uuid::from_u128(id).to_string()`: the lower-case hyphenated form, which
/// `Uuid::from_str` reads back as the same UUID.
#[verifier::external_body]
pub(crate) fn uuid_to_text(id: u128) -> (res: String)
    ensures
        res@ == uuid_hyphenated(id),
        uuid_parse(res@) == Some(id),
{
    uuid::Uuid::from_u128(id).to_string()
}

/// `Uuid::from_u128(id).simple().to_string()`: 32 lower-case hexadecimal digits.
#[verifier::external_body]
pub(crate) fn uuid_to_simple_text(id: u128) -> (res: String)
    ensures
        res@ == uuid_simple(id),
{
    uuid::Uuid::from_u128(id).simple().to_string()
}

/// `Uuid::from_str(text)` as a 128-bit value, errors mapped to `None`.
#[verifier::external_body]
pub(crate) fn uuid_from_text(text: &str) -> (res: Option<u128>)
    ensures
        res == uuid_parse(text@),
{
    <uuid::Uuid as std::str::FromStr>::from_str(text).ok().map(|u| u.as_u128())
}

} // verus!
