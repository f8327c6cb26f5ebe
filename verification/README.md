# janitorai_grabber

A local LLM API proxy that captures chat-completion traffic, with its
decisions verified in Verus.

- `src/` is the verified library: the capture record and its secret-header
  redaction, the SQLite row codec and the JSONL line framing
  (`store/`), where each request goes and what the proxy does with it in
  forward and in capture mode, down to the JSON text of its replies
  (`proxy/`), the configuration (`config.rs`) and the state behind the
  desktop window (`ui.rs`). The calls into uuid, chrono and serde_json are
  declared in `ident.rs`, `time.rs`, `json.rs` and `proxy/chat.rs` with the
  contracts the proofs rely on.
- `app/` is the program around it: the axum server, the reqwest upstream
  calls, the sqlx store, the configuration file, the JSONL file and the
  egui window.
- `tests/` exercises the library on concrete values.
