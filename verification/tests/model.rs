use janitorai_grabber::store::{CaptureRecord, Direction, SecretFlag};

#[test]
fn secrets_are_flagged_and_redactable() {
    let rec = CaptureRecord::request(
        "POST",
        "/v1/chat/completions",
        vec![
            ("authorization".into(), "Bearer sk-supersecret".into()),
            ("content-type".into(), "application/json".into()),
        ],
        None,
    );
    let shown = rec.redacted_headers();
    assert_eq!(shown[0].1, "«redacted»");
    assert_eq!(shown[1].1, "application/json");
    // Raw value never in pretty output.
    let pretty = serde_json::to_string(&rec.redacted_headers()).unwrap();
    assert!(!pretty.contains("sk-supersecret"));
}

#[test]
fn json_body_pretty_prints() {
    let mut rec = CaptureRecord::response(
        "/v1/chat/completions",
        200,
        vec![],
        Some(r#"{"a":1}"#.to_string()),
        12,
    );
    rec.secret = SecretFlag::Clean;
    assert_eq!(rec.body_pretty().unwrap(), "{\n  \"a\": 1\n}");
}

#[test]
fn body_pretty_none_for_missing_or_invalid_body() {
    let rec = CaptureRecord::response("/x", 200, vec![], None, 1);
    assert_eq!(rec.body_pretty(), None);
    let rec = CaptureRecord::response("/x", 200, vec![], Some("not json".into()), 1);
    assert_eq!(rec.body_pretty(), None);
}

#[test]
fn secret_header_names_ignore_case() {
    for name in [
        "authorization",
        "Authorization",
        "PROXY-AUTHORIZATION",
        "Cookie",
        "set-cookie",
        "X-Api-Key",
        "x-janitor-ai-key",
    ] {
        assert!(CaptureRecord::is_secret_header(name), "{name}");
    }
    for name in ["content-type", "authorizations", "x-api", "", "host"] {
        assert!(!CaptureRecord::is_secret_header(name), "{name}");
    }
}

#[test]
fn redaction_keeps_names_order_and_is_idempotent() {
    let mut rec = CaptureRecord::request(
        "GET",
        "/",
        vec![
            ("Cookie".into(), "session=1".into()),
            ("accept".into(), "*/*".into()),
            ("X-API-KEY".into(), "k".into()),
        ],
        None,
    );
    let once = rec.redacted_headers();
    assert_eq!(
        once,
        vec![
            ("Cookie".to_string(), "«redacted»".to_string()),
            ("accept".to_string(), "*/*".to_string()),
            ("X-API-KEY".to_string(), "«redacted»".to_string()),
        ]
    );
    rec.headers = once.clone();
    assert_eq!(rec.redacted_headers(), once);
}

#[test]
fn request_and_response_records() {
    let req = CaptureRecord::request("PUT", "/a?b=1", vec![], Some("x".into()));
    assert_eq!(req.direction, Direction::Request);
    assert_eq!(req.method, "PUT");
    assert_eq!(req.path, "/a?b=1");
    assert_eq!(req.status, None);
    assert_eq!(req.secret, SecretFlag::Clean);
    assert_eq!(req.duration_ms, None);
    let resp = CaptureRecord::response("/a", 404, vec![], None, 7);
    assert_eq!(resp.direction, Direction::Response);
    assert_eq!(resp.method, "");
    assert_eq!(resp.status, Some(404));
    assert_eq!(resp.duration_ms, Some(7));
    assert_ne!(req.id, resp.id);
}

#[test]
fn pretty_body_is_the_same_value() {
    let body = r#"{"b":[1,-2,18446744073709551615,"x\"\n\u00e9"],"a":{"n":null,"t":true},"a2":[]}"#;
    let rec = CaptureRecord::response("/x", 200, vec![], Some(body.to_string()), 1);
    let pretty = rec.body_pretty().unwrap();
    assert!(pretty.contains("\n  \"a\": {"));
    let before: serde_json::Value = serde_json::from_str(body).unwrap();
    let after: serde_json::Value = serde_json::from_str(&pretty).unwrap();
    assert_eq!(before, after);
    assert_eq!(serde_json::to_string(&before).unwrap(), serde_json::to_string(&after).unwrap());
}

#[test]
fn pretty_body_may_move_a_float() {
    // serde_json's default float parser is not correctly rounded: 40e-26 reads
    // as 3.9999999999999997e-25, which is written as such and read back as 4e-25.
    let rec = CaptureRecord::response("/x", 200, vec![], Some("[40e-26]".to_string()), 1);
    let pretty = rec.body_pretty().unwrap();
    let before: serde_json::Value = serde_json::from_str("[40e-26]").unwrap();
    let after: serde_json::Value = serde_json::from_str(&pretty).unwrap();
    assert_ne!(before, after);
}
