use janitorai_grabber::store::export::frame_line;

#[test]
fn frame_appends_one_line_feed() {
    assert_eq!(frame_line(r#"{"id":1}"#).as_deref(), Some("{\"id\":1}\n"));
    assert_eq!(frame_line("").as_deref(), Some("\n"));
}

#[test]
fn frame_refuses_raw_line_breaks() {
    assert_eq!(frame_line("a\nb"), None);
    assert_eq!(frame_line("a\r"), None);
}

#[test]
fn framed_lines_read_back_one_per_record() {
    let records = [r#"{"a":"x\ny"}"#, r#"{"b":2}"#, "[]"];
    let mut text = String::new();
    for r in records {
        text.push_str(&frame_line(r).unwrap());
    }
    let lines: Vec<&str> = text.lines().collect();
    assert_eq!(lines, records);
}
