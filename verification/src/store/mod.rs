//! Captured exchanges: the record model, its storage row codec and the
//! line framing of the JSONL export.

pub mod export;
pub mod model;
pub mod row;

pub use model::{CaptureRecord, Direction, SecretFlag};
