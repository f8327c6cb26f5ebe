use janitorai_grabber::proxy::chat::{stub_reply_for, stub_response, ChatMessage, ChatRequest};

fn msg(role: &str, content: &str) -> ChatMessage {
    ChatMessage { role: Some(role.to_string()), content: Some(content.to_string()) }
}

#[test]
fn stub_contains_last_user_message() {
    let req = ChatRequest {
        model: Some("gpt-x".to_string()),
        messages: Some(vec![msg("system", "sys"), msg("user", "hello there")]),
    };
    let stub = stub_response(&req);
    assert_eq!(stub.content, "hello there");
    assert_eq!(stub.model, "gpt-x");
    assert_eq!(stub.object, "chat.completion");
}

#[test]
fn stub_without_messages_is_valid() {
    let stub = stub_response(&ChatRequest { model: None, messages: None });
    assert_eq!(stub.content, "");
}

#[test]
fn stub_fields_for_fixed_id_and_time() {
    let req = ChatRequest { model: None, messages: Some(vec![]) };
    let stub = stub_reply_for(&req, 0x0123456789abcdef0011223344556677, 1_700_000_000);
    assert_eq!(stub.id, "chatcmpl-grabber-0123456789abcdef0011223344556677");
    assert_eq!(stub.created, 1_700_000_000);
    assert_eq!(stub.model, "grabber-capture");
    assert_eq!(stub.role, "assistant");
    assert_eq!(stub.content, "");
    assert_eq!(stub.finish_reason, "stop");
}

#[test]
fn stub_takes_the_last_user_line_only() {
    let req = ChatRequest {
        model: None,
        messages: Some(vec![
            msg("user", "first"),
            msg("assistant", "reply"),
            msg("user", "second"),
            msg("system", "note"),
        ]),
    };
    assert_eq!(stub_response(&req).content, "second");
}

#[test]
fn stub_last_user_without_string_content_is_empty() {
    let req = ChatRequest {
        model: None,
        messages: Some(vec![
            msg("user", "earlier"),
            ChatMessage { role: Some("user".to_string()), content: None },
        ]),
    };
    assert_eq!(stub_response(&req).content, "");
}

#[test]
fn stub_content_is_cut_at_120_characters() {
    let long: String = "é".repeat(130);
    let req = ChatRequest { model: None, messages: Some(vec![msg("user", &long)]) };
    let stub = stub_response(&req);
    assert_eq!(stub.content.chars().count(), 120);
    assert_eq!(stub.content, "é".repeat(120));
}

#[test]
fn stub_ids_are_fresh() {
    let req = ChatRequest { model: None, messages: None };
    let a = stub_response(&req);
    let b = stub_response(&req);
    assert!(a.id.starts_with("chatcmpl-grabber-"));
    assert_eq!(a.id.len(), "chatcmpl-grabber-".len() + 32);
    assert_ne!(a.id, b.id);
}

#[test]
fn stub_json_text_is_serde_jsons_compact_form() {
    let req = ChatRequest {
        model: Some("m\"x".to_string()),
        messages: Some(vec![msg("user", "line\nnext\u{1}")]),
    };
    let stub = stub_reply_for(&req, 0x0123456789abcdef0011223344556677, -5);
    let text = stub.to_json();
    assert_eq!(
        text,
        r#"{"choices":[{"finish_reason":"stop","index":0,"message":{"content":"line\nnext\u0001","role":"assistant"}}],"created":-5,"id":"chatcmpl-grabber-0123456789abcdef0011223344556677","model":"m\"x","object":"chat.completion","usage":{"completion_tokens":0,"prompt_tokens":0,"total_tokens":0}}"#
    );
    let v: serde_json::Value = serde_json::from_str(&text).unwrap();
    assert_eq!(serde_json::to_string(&v).unwrap(), text);
    assert_eq!(v["choices"].as_array().unwrap().len(), 1);
    assert_eq!(v["choices"][0]["index"], 0);
    assert_eq!(v["usage"]["prompt_tokens"], 0);
    assert_eq!(v["usage"]["completion_tokens"], 0);
}

#[test]
fn stub_creation_time_is_now_in_seconds() {
    let stub = stub_response(&ChatRequest { model: None, messages: None });
    assert!(stub.created > 1_700_000_000);
}
