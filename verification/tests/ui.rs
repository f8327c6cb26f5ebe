use janitorai_grabber::config::{Config, Mode};
use janitorai_grabber::store::{CaptureRecord, Direction};
use janitorai_grabber::ui::{ExportOutcome, ProxyPhase, ViewState};

#[test]
fn start_and_stop_the_proxy() {
    let mut s = ViewState::new(0);
    assert_eq!(s.phase, ProxyPhase::Stopped);
    assert_eq!(s.status_msg, "Proxy stopped");
    let cfg = Config::default();
    let start = s.start(&cfg);
    assert_eq!(start.listen_addr, "127.0.0.1:8817");
    assert_eq!(start.mode, Mode::Capture);
    assert_eq!(start.upstream_base_url, "https://api.openai.com");
    assert_eq!(s.phase, ProxyPhase::Running);
    assert_eq!(s.status_msg, "Running on 127.0.0.1:8817 (capture)");
    assert!(s.stop());
    assert_eq!(s.phase, ProxyPhase::Stopped);
    assert_eq!(s.status_msg, "Proxy stopped");
    assert!(!s.stop());
}

#[test]
fn refresh_only_while_running_once_a_second() {
    let mut s = ViewState::new(1000);
    assert!(!s.refresh_due(5000));
    s.start(&Config::default());
    assert!(!s.refresh_due(1999));
    assert!(s.refresh_due(2000));
    s.captures_reloaded(Some(vec![CaptureRecord::request("GET", "/", vec![], None)]), 2000);
    assert_eq!(s.captures.len(), 1);
    assert!(!s.refresh_due(2500));
    s.captures_reloaded(None, 3000);
    assert_eq!(s.captures.len(), 1);
    assert_eq!(s.last_refresh_ms, 3000);
}

#[test]
fn export_status_lines() {
    let mut s = ViewState::new(0);
    s.export_finished(ExportOutcome::Written { written: 12, path: "/d/export.jsonl".into() });
    assert_eq!(s.status_msg, "Exported 12 records to /d/export.jsonl");
    s.export_finished(ExportOutcome::Failed { error: "permission denied".into() });
    assert_eq!(s.status_msg, "Export failed: permission denied");
    s.export_finished(ExportOutcome::Written { written: 0, path: "x".into() });
    assert_eq!(s.status_msg, "Exported 0 records to x");
    s.body_copied();
    assert_eq!(s.status_msg, "Body copied to clipboard");
}

#[test]
fn detail_follows_the_selection() {
    let mut s = ViewState::new(0);
    assert_eq!(s.detail_index(), None);
    let a = CaptureRecord::request("GET", "/a", vec![], None);
    let b = CaptureRecord::request("GET", "/b", vec![], None);
    let b_id = b.id;
    s.captures_reloaded(Some(vec![a, b]), 0);
    s.select(b_id);
    assert_eq!(s.detail_index(), Some(1));
    assert_eq!(s.selected, Some(b_id));
    s.close_detail();
    assert_eq!(s.detail_index(), None);
    s.select(b_id);
    s.captures_reloaded(Some(vec![]), 1);
    assert_eq!(s.detail_index(), None);
    assert_eq!(s.selected, None);
}

#[test]
fn status_badges_and_direction_marks() {
    assert_eq!(ViewState::status_badge(200), (true, "200 ok".to_string()));
    assert_eq!(ViewState::status_badge(299), (true, "299 ok".to_string()));
    assert_eq!(ViewState::status_badge(404), (false, "404".to_string()));
    assert_eq!(ViewState::status_badge(7), (false, "7".to_string()));
    assert_eq!(ViewState::arrow(Direction::Request), "→");
    assert_eq!(ViewState::arrow(Direction::Response), "←");
    assert_eq!(ViewState::direction_word(Direction::Response), "response");
}
