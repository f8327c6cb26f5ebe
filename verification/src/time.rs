//! Capture times: instants in UTC, kept to the nanosecond, and their RFC 3339 text.

use vstd::prelude::*;

verus! {

/// An instant: whole seconds since the Unix epoch (UTC) and the nanoseconds
/// past that second. `nanos` from 1_000_000_000 up marks a leap second, as
/// chrono represents one.
#[derive(Debug, Clone, Copy, PartialEq, Eq, Structural)]
pub struct Timestamp {
    pub secs: i64,
    pub nanos: u32,
}

/// Whether chrono represents the instant, as `DateTime::<Utc>::from_timestamp`
/// decides it: its date lies from -262143-01-01 to 262142-12-31, and a
/// leap-second nanosecond count (from one second up, below two) falls on
/// the last second of a minute.
pub open spec fn timestamp_representable(t: Timestamp) -> bool {
    &&& -8_334_601_315_200 <= t.secs && t.secs < 8_210_266_876_800
    &&& (t.nanos < 1_000_000_000 || (t.nanos < 2_000_000_000 && t.secs % 60 == 59))
}

/// Whether the instant falls in the years 0000 to 9999, the only ones whose
/// RFC 3339 text has the four-digit year that `parse_from_rfc3339` requires,
/// and is representable (a leap second is written as second 60 and read
/// back as one).
pub open spec fn in_four_digit_years(t: Timestamp) -> bool {
    &&& -62_167_219_200 <= t.secs && t.secs < 253_402_300_800
    &&& timestamp_representable(t)
}

/// The text `DateTime::<Utc>::to_rfc3339` gives for the instant `t`.
pub uninterp spec fn rfc3339_text(t: Timestamp) -> Seq<char>;

/// What `DateTime::parse_from_rfc3339` reads from `text`, as a UTC instant;
/// `None` where it reports an error.
pub uninterp spec fn rfc3339_instant(text: Seq<char>) -> Option<Timestamp>;

/// `Utc::now()` as seconds and nanoseconds. chrono builds it from the
/// system clock's offset from the epoch, whose sub-second part is below one
/// second, through `from_timestamp`, so the instant is representable; which
/// instant it is is not stated. (chrono panics when the clock reads before
/// 1970.)
#[verifier::external_body]
pub(crate) fn now() -> (res: Timestamp)
    ensures
        res.nanos < 1_000_000_000,
        timestamp_representable(res),
{
    let t = chrono::Utc::now();
    Timestamp { secs: t.timestamp(), nanos: t.timestamp_subsec_nanos() }
}

/// `DateTime::from_timestamp(t.secs, t.nanos)` formatted by `to_rfc3339`.
/// The text keeps every sub-second digit, so for an instant in the years
/// 0000 to 9999 `parse_from_rfc3339` reads the same instant back from it;
/// other years are written with a sign and more digits, which the parser
/// refuses.
#[verifier::external_body]
pub(crate) fn timestamp_to_rfc3339(t: Timestamp) -> (res: Option<String>)
    ensures
        res is Some <==> timestamp_representable(t),
        res matches Some(s) ==> s@ == rfc3339_text(t),
        res matches Some(s) ==> (in_four_digit_years(t) ==> rfc3339_instant(s@) == Some(t)),
{
    chrono::DateTime::from_timestamp(t.secs, t.nanos).map(|d| d.to_rfc3339())
}

/// `DateTime::parse_from_rfc3339(text)` as a UTC instant (`timestamp` and
/// `timestamp_subsec_nanos`), errors mapped to `None`.
#[verifier::external_body]
pub(crate) fn rfc3339_to_timestamp(text: &str) -> (res: Option<Timestamp>)
    ensures
        res == rfc3339_instant(text@),
{
    chrono::DateTime::parse_from_rfc3339(text).ok().map(
        |d| Timestamp { secs: d.timestamp(), nanos: d.timestamp_subsec_nanos() },
    )
}

} // verus!
