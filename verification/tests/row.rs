use janitorai_grabber::store::row::{records_from_rows, CaptureRow, RowError};
use janitorai_grabber::store::{CaptureRecord, Direction, SecretFlag};
use janitorai_grabber::time::Timestamp;

#[test]
fn insert_and_list_roundtrip() {
    let rec = CaptureRecord::request(
        "POST",
        "/v1/chat/completions",
        vec![("authorization".into(), "Bearer x".into())],
        Some(r#"{"model":"gpt-test"}"#.into()),
    );
    let row = CaptureRow::from_record(&rec).unwrap();
    let listed = records_from_rows(vec![row]).unwrap();
    assert_eq!(listed.len(), 1);
    assert_eq!(listed[0].id, rec.id);
    assert_eq!(listed[0].headers[0].1, "Bearer x");
}

fn sample_row() -> CaptureRow {
    CaptureRow {
        id: "a1a2a3a4-b1b2-c1c2-d1d2-d3d4d5d6d7d8".into(),
        direction: "response".into(),
        timestamp: "2024-05-01T12:30:45.123456+00:00".into(),
        method: String::new(),
        path: "/v1/models".into(),
        status: Some(200),
        headers: r#"[["content-type","application/json"]]"#.into(),
        secret: "clean".into(),
        body: Some("{}".into()),
        duration_ms: Some(42),
    }
}

#[test]
fn row_columns_of_a_record() {
    let mut rec = CaptureRecord::response("/p", 201, vec![("a".into(), "b\"c".into())], None, 5);
    rec.id = 0xa1a2a3a4b1b2c1c2d1d2d3d4d5d6d7d8;
    rec.timestamp = Timestamp { secs: 1_714_566_645, nanos: 123_456_000 };
    rec.secret = SecretFlag::Secret;
    let row = CaptureRow::from_record(&rec).unwrap();
    assert_eq!(row.id, "a1a2a3a4-b1b2-c1c2-d1d2-d3d4d5d6d7d8");
    assert_eq!(row.direction, "response");
    assert_eq!(row.timestamp, "2024-05-01T12:30:45.123456+00:00");
    assert_eq!(row.status, Some(201));
    assert_eq!(row.headers, r#"[["a","b\"c"]]"#);
    assert_eq!(row.secret, "secret");
    assert_eq!(row.body, None);
    assert_eq!(row.duration_ms, Some(5));
}

#[test]
fn row_reads_back() {
    let rec = sample_row().into_record().unwrap();
    assert_eq!(rec.id, 0xa1a2a3a4b1b2c1c2d1d2d3d4d5d6d7d8);
    assert_eq!(rec.direction, Direction::Response);
    assert_eq!(rec.timestamp, Timestamp { secs: 1_714_566_645, nanos: 123_456_000 });
    assert_eq!(rec.path, "/v1/models");
    assert_eq!(rec.status, Some(200));
    assert_eq!(rec.headers, vec![("content-type".to_string(), "application/json".to_string())]);
    assert_eq!(rec.secret, SecretFlag::Clean);
    assert_eq!(rec.duration_ms, Some(42));
}

#[test]
fn unknown_column_texts_read_as_response_and_clean() {
    let mut row = sample_row();
    row.direction = "REQUEST".into();
    row.secret = "yes".into();
    let rec = row.into_record().unwrap();
    assert_eq!(rec.direction, Direction::Response);
    assert_eq!(rec.secret, SecretFlag::Clean);
}

#[test]
fn bad_columns_give_errors_in_order() {
    let mut row = sample_row();
    row.id = "not-a-uuid".into();
    row.timestamp = "yesterday".into();
    assert_eq!(row.into_record().unwrap_err(), RowError::Id);

    let mut row = sample_row();
    row.timestamp = "yesterday".into();
    row.headers = "{".into();
    assert_eq!(row.into_record().unwrap_err(), RowError::Timestamp);

    let mut row = sample_row();
    row.headers = r#"{"a":"b"}"#.into();
    assert_eq!(row.into_record().unwrap_err(), RowError::Headers);
}

#[test]
fn out_of_range_time_is_refused() {
    let mut rec = CaptureRecord::request("GET", "/", vec![], None);
    rec.timestamp = Timestamp { secs: i64::MAX, nanos: 0 };
    assert_eq!(CaptureRow::from_record(&rec).unwrap_err(), RowError::Timestamp);
}

#[test]
fn huge_duration_saturates_and_status_keeps() {
    let mut rec = CaptureRecord::response("/", 599, vec![], Some("b".into()), u64::MAX);
    rec.timestamp = Timestamp { secs: 0, nanos: 0 };
    let row = CaptureRow::from_record(&rec).unwrap();
    assert_eq!(row.duration_ms, Some(i64::MAX));
    let back = row.into_record().unwrap();
    assert_eq!(back.duration_ms, Some(i64::MAX as u64));
    assert_eq!(back.status, Some(599));
    assert_eq!(back.body.as_deref(), Some("b"));
}

#[test]
fn rows_read_in_order_and_first_error_wins() {
    let a = CaptureRecord::request("GET", "/a", vec![], None);
    let b = CaptureRecord::response("/b", 200, vec![], None, 1);
    let rows = vec![CaptureRow::from_record(&a).unwrap(), CaptureRow::from_record(&b).unwrap()];
    let back = records_from_rows(rows).unwrap();
    assert_eq!(back.len(), 2);
    assert_eq!(back[0].path, "/a");
    assert_eq!(back[1].path, "/b");

    let mut bad = sample_row();
    bad.headers = "x".into();
    let mut worse = sample_row();
    worse.id = "x".into();
    assert_eq!(records_from_rows(vec![sample_row(), bad, worse]).unwrap_err(), RowError::Headers);
    assert_eq!(records_from_rows(vec![]).unwrap().len(), 0);
}

#[test]
fn five_digit_years_do_not_read_back() {
    let mut rec = CaptureRecord::request("GET", "/", vec![], None);
    rec.timestamp = Timestamp { secs: 253_402_300_800, nanos: 0 };
    let row = CaptureRow::from_record(&rec).unwrap();
    assert_eq!(row.timestamp, "+10000-01-01T00:00:00+00:00");
    assert_eq!(row.into_record().unwrap_err(), RowError::Timestamp);

    rec.timestamp = Timestamp { secs: 253_402_300_799, nanos: 999_999_999 };
    let back = CaptureRow::from_record(&rec).unwrap().into_record().unwrap();
    assert_eq!(back.timestamp, Timestamp { secs: 253_402_300_799, nanos: 999_999_999 });
}

#[test]
fn nanoseconds_are_kept() {
    let mut rec = CaptureRecord::request("GET", "/", vec![], None);
    rec.timestamp = Timestamp { secs: 1_714_566_645, nanos: 123_456_789 };
    let row = CaptureRow::from_record(&rec).unwrap();
    assert_eq!(row.timestamp, "2024-05-01T12:30:45.123456789+00:00");
    let back = row.into_record().unwrap();
    assert_eq!(back.timestamp, rec.timestamp);
}

#[test]
fn misplaced_leap_second_is_refused() {
    let mut rec = CaptureRecord::request("GET", "/", vec![], None);
    rec.timestamp = Timestamp { secs: 1_714_566_645, nanos: 1_500_000_000 };
    assert_eq!(CaptureRow::from_record(&rec).unwrap_err(), RowError::Timestamp);
    rec.timestamp = Timestamp { secs: 1_714_566_659, nanos: 1_500_000_000 };
    assert!(CaptureRow::from_record(&rec).is_ok());
}

#[test]
fn a_fresh_record_is_storable() {
    let rec = CaptureRecord::request("GET", "/", vec![], None);
    assert!(rec.timestamp.secs > 1_700_000_000);
    assert!(rec.timestamp.nanos < 1_000_000_000);
    assert!(CaptureRow::from_record(&rec).is_ok());
}

#[test]
fn leap_seconds_read_back() {
    let mut rec = CaptureRecord::request("GET", "/", vec![], None);
    rec.timestamp = Timestamp { secs: 1_714_566_659, nanos: 1_500_000_000 };
    let row = CaptureRow::from_record(&rec).unwrap();
    assert_eq!(row.timestamp, "2024-05-01T12:30:60.500+00:00");
    assert_eq!(row.into_record().unwrap().timestamp, rec.timestamp);
}

#[test]
fn header_column_text() {
    let mut rec = CaptureRecord::request("GET", "/", vec![], None);
    let row = CaptureRow::from_record(&rec).unwrap();
    assert_eq!(row.headers, "[]");
    rec.headers = vec![("a".into(), "1".into()), ("b\\".into(), "\t\u{1f}".into())];
    let row = CaptureRow::from_record(&rec).unwrap();
    assert_eq!(row.headers, r#"[["a","1"],["b\\","\t\u001f"]]"#);
}
