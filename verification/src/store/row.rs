//! The storage row of a capture: every column as SQLite holds it, and the
//! codec between rows and records.

use vstd::prelude::*;
use vstd::string::*;
use crate::ident::{uuid_from_text, uuid_hyphenated, uuid_parse, uuid_to_text};
use crate::json::{headers_from_json, headers_json, headers_of_json, headers_to_json};
use crate::store::model::{CaptureRecord, Direction, RecordView, SecretFlag};
use crate::text::str_eq;
use crate::time::{
    in_four_digit_years, rfc3339_instant, rfc3339_text, rfc3339_to_timestamp, timestamp_representable,
    timestamp_to_rfc3339,
};

verus! {

/// One row of the `captures` table.
#[derive(Debug)]
pub struct CaptureRow {
    /// The record id in hyphenated UUID form.
    pub id: String,
    /// `request` or `response`.
    pub direction: String,
    /// RFC 3339 text of the capture time.
    pub timestamp: String,
    pub method: String,
    pub path: String,
    pub status: Option<i64>,
    /// JSON array of `[name, value]` pairs.
    pub headers: String,
    /// `clean` or `secret`.
    pub secret: String,
    pub body: Option<String>,
    pub duration_ms: Option<i64>,
}

/// Mathematical model of a [`CaptureRow`].
pub struct RowView {
    pub id: Seq<char>,
    pub direction: Seq<char>,
    pub timestamp: Seq<char>,
    pub method: Seq<char>,
    pub path: Seq<char>,
    pub status: Option<i64>,
    pub headers: Seq<char>,
    pub secret: Seq<char>,
    pub body: Option<Seq<char>>,
    pub duration_ms: Option<i64>,
}

impl View for CaptureRow {
    type V = RowView;

    open spec fn view(&self) -> RowView {
        RowView {
            id: self.id@,
            direction: self.direction@,
            timestamp: self.timestamp@,
            method: self.method@,
            path: self.path@,
            status: self.status,
            headers: self.headers@,
            secret: self.secret@,
            body: self.body.deep_view(),
            duration_ms: self.duration_ms,
        }
    }
}

/// Why a record could not be turned into a row, or a row into a record.
#[derive(Debug, Clone, Copy, PartialEq, Eq, Structural)]
pub enum RowError {
    /// The id column is not a UUID.
    Id,
    /// The capture time is outside the representable range, or its column is
    /// not RFC 3339 text.
    Timestamp,
    /// The headers column is not a JSON list of string pairs.
    Headers,
}

/// The text of the direction column.
pub open spec fn direction_text(d: Direction) -> Seq<char> {
    match d {
        Direction::Request => "request"@,
        Direction::Response => "response"@,
    }
}

/// The text of the secret column.
pub open spec fn secret_text(s: SecretFlag) -> Seq<char> {
    match s {
        SecretFlag::Clean => "clean"@,
        SecretFlag::Secret => "secret"@,
    }
}

/// The duration column: milliseconds, saturated at `i64::MAX`.
pub open spec fn duration_column(d: Option<u64>) -> Option<i64> {
    match d {
        Some(ms) => Some(if ms <= i64::MAX { ms as i64 } else { i64::MAX }),
        None => None,
    }
}

/// The status column.
pub open spec fn status_column(s: Option<u16>) -> Option<i64> {
    match s {
        Some(code) => Some(code as i64),
        None => None,
    }
}

/// The row that stores a record, when its capture time is representable.
pub open spec fn row_of(r: RecordView) -> Option<RowView> {
    if timestamp_representable(r.timestamp) {
        Some(
            RowView {
                id: uuid_hyphenated(r.id),
                direction: direction_text(r.direction),
                timestamp: rfc3339_text(r.timestamp),
                method: r.method,
                path: r.path,
                status: status_column(r.status),
                headers: headers_json(r.headers),
                secret: secret_text(r.secret),
                body: r.body,
                duration_ms: duration_column(r.duration_ms),
            },
        )
    } else {
        None
    }
}

/// The record a row reads back as: any direction text but `request` reads
/// as a response, any secret text but `secret` as clean, and the integer
/// columns are cast to the record's widths.
pub open spec fn record_of(row: RowView) -> Result<RecordView, RowError> {
    match uuid_parse(row.id) {
        None => Err(RowError::Id),
        Some(id) => match rfc3339_instant(row.timestamp) {
            None => Err(RowError::Timestamp),
            Some(ts) => match headers_of_json(row.headers) {
                None => Err(RowError::Headers),
                Some(h) => Ok(
                    RecordView {
                        id,
                        direction: if row.direction == "request"@ {
                            Direction::Request
                        } else {
                            Direction::Response
                        },
                        timestamp: ts,
                        method: row.method,
                        path: row.path,
                        status: match row.status {
                            Some(s) => Some(s as u16),
                            None => None,
                        },
                        headers: h,
                        secret: if row.secret == "secret"@ {
                            SecretFlag::Secret
                        } else {
                            SecretFlag::Clean
                        },
                        body: row.body,
                        duration_ms: match row.duration_ms {
                            Some(d) => Some(d as u64),
                            None => None,
                        },
                    },
                ),
            },
        },
    }
}

/// A record with its duration saturated at `i64::MAX`, as a row keeps it.
pub open spec fn with_stored_duration(r: RecordView) -> RecordView {
    RecordView {
        duration_ms: match r.duration_ms {
            Some(d) => Some(if d <= i64::MAX { d } else { i64::MAX as u64 }),
            None => None,
        },
        ..r
    }
}

impl CaptureRow {
    /// The row that stores `rec`. It fails only when the capture time lies
    /// outside chrono's representable range. When the capture time falls in
    /// the years 0000 to 9999 (and is no leap second), reading the row back
    /// gives the record again, its duration saturated at `i64::MAX`.
    pub fn from_record(rec: &CaptureRecord) -> (res: Result<CaptureRow, RowError>)
        ensures
            match res {
                Ok(row) => row_of(rec@) == Some(row@),
                Err(e) => e == RowError::Timestamp && row_of(rec@) is None,
            },
            res matches Ok(row) ==> (in_four_digit_years(rec.timestamp) ==> record_of(row@) == Ok::<
                RecordView,
                RowError,
            >(with_stored_duration(rec@))),
    {
        let headers = match headers_to_json(&rec.headers) {
            Ok(h) => h,
            Err(_) => return Err(RowError::Headers),
        };
        let timestamp = match timestamp_to_rfc3339(rec.timestamp) {
            Some(t) => t,
            None => return Err(RowError::Timestamp),
        };
        let id = uuid_to_text(rec.id);
        proof {
            reveal_strlit("request");
            reveal_strlit("response");
            reveal_strlit("clean");
            reveal_strlit("secret");
            assert("request"@ != "response"@) by {
                assert("request"@.len() != "response"@.len());
            }
            assert("secret"@ != "clean"@) by {
                assert("secret"@.len() != "clean"@.len());
            }
        }
        let direction = match rec.direction {
            Direction::Request => String::from_str("request"),
            Direction::Response => String::from_str("response"),
        };
        let secret = match rec.secret {
            SecretFlag::Clean => String::from_str("clean"),
            SecretFlag::Secret => String::from_str("secret"),
        };
        let status = match rec.status {
            Some(s) => Some(s as i64),
            None => None,
        };
        let duration_ms = match rec.duration_ms {
            Some(d) => Some(if d <= i64::MAX as u64 { d as i64 } else { i64::MAX }),
            None => None,
        };
        let body = match &rec.body {
            Some(b) => Some(b.clone()),
            None => None,
        };
        let row = CaptureRow {
            id,
            direction,
            timestamp,
            method: rec.method.clone(),
            path: rec.path.clone(),
            status,
            headers,
            secret,
            body,
            duration_ms,
        };
        proof {
            assert(row_of(rec@) == Some(row@));
            if in_four_digit_years(rec.timestamp) {
                assert(record_of(row@) == Ok::<RecordView, RowError>(with_stored_duration(rec@)));
            }
        }
        Ok(row)
    }

    /// The record this row stores; errors in the order id, time, headers.
    pub fn into_record(self) -> (res: Result<CaptureRecord, RowError>)
        ensures
            match res {
                Ok(r) => record_of(self@) == Ok::<RecordView, RowError>(r@),
                Err(e) => record_of(self@) == Err::<RecordView, RowError>(e),
            },
    {
        let id = match uuid_from_text(self.id.as_str()) {
            Some(id) => id,
            None => return Err(RowError::Id),
        };
        let timestamp = match rfc3339_to_timestamp(self.timestamp.as_str()) {
            Some(t) => t,
            None => return Err(RowError::Timestamp),
        };
        let headers = match headers_from_json(self.headers.as_str()) {
            Some(h) => h,
            None => return Err(RowError::Headers),
        };
        let direction = if str_eq(self.direction.as_str(), "request") {
            Direction::Request
        } else {
            Direction::Response
        };
        let secret = if str_eq(self.secret.as_str(), "secret") {
            SecretFlag::Secret
        } else {
            SecretFlag::Clean
        };
        let status = match self.status {
            Some(s) => Some(s as u16),
            None => None,
        };
        let duration_ms = match self.duration_ms {
            Some(d) => Some(d as u64),
            None => None,
        };
        let rec = CaptureRecord {
            id,
            direction,
            timestamp,
            method: self.method,
            path: self.path,
            status,
            headers,
            secret,
            body: self.body,
            duration_ms,
        };
        Ok(rec)
    }
}

/// The records of a list of rows, in order; the first row that does not
/// read back gives the error.
pub open spec fn records_of(rows: Seq<RowView>) -> Result<Seq<RecordView>, RowError>
    decreases rows.len(),
{
    if rows.len() == 0 {
        Ok(Seq::empty())
    } else {
        match record_of(rows[0]) {
            Err(e) => Err(e),
            Ok(r) => match records_of(rows.drop_first()) {
                Err(e) => Err(e),
                Ok(rs) => Ok(seq![r] + rs),
            },
        }
    }
}

/// The models of a list of rows.
pub open spec fn rows_view(rows: Seq<CaptureRow>) -> Seq<RowView> {
    rows.map_values(|r: CaptureRow| r@)
}

/// The models of a list of records.
pub open spec fn records_view(records: Seq<CaptureRecord>) -> Seq<RecordView> {
    records.map_values(|r: CaptureRecord| r@)
}

/// The records stored in `rows`, in the same order; the first row that does
/// not read back decides the error.
pub fn records_from_rows(rows: Vec<CaptureRow>) -> (res: Result<Vec<CaptureRecord>, RowError>)
    ensures
        match res {
            Ok(recs) => records_of(rows_view(rows@)) == Ok::<Seq<RecordView>, RowError>(
                records_view(recs@),
            ),
            Err(e) => records_of(rows_view(rows@)) == Err::<Seq<RecordView>, RowError>(e),
        },
{
    let ghost all = rows_view(rows@);
    let mut rest = rows;
    let mut out: Vec<CaptureRecord> = Vec::new();
    while rest.len() > 0
        invariant
            all == rows_view(rows@),
            records_of(all) == match records_of(rows_view(rest@)) {
                Ok(rs) => Ok::<Seq<RecordView>, RowError>(records_view(out@) + rs),
                Err(e) => Err(e),
            },
        decreases rest.len(),
    {
        let ghost before = rows_view(rest@);
        let row = rest.remove(0);
        proof {
            assert(rows_view(rest@) =~= before.drop_first());
            assert(before[0] == row@);
        }
        match row.into_record() {
            Ok(r) => {
                let ghost prev = records_view(out@);
                out.push(r);
                proof {
                    assert(records_view(out@) =~= prev.push(r@));
                    match records_of(rows_view(rest@)) {
                        Ok(rs) => {
                            assert(prev + (seq![r@] + rs) =~= prev.push(r@) + rs);
                        },
                        Err(_) => {},
                    }
                }
            },
            Err(e) => {
                assert(records_of(before) == Err::<Seq<RecordView>, RowError>(e));
                return Err(e);
            },
        }
    }
    proof {
        assert(records_of(rows_view(rest@)) == Ok::<Seq<RecordView>, RowError>(Seq::empty()));
        assert(records_view(out@) + Seq::<RecordView>::empty() =~= records_view(out@));
    }
    Ok(out)
}

} // verus!
