//! Verified core of the JanitorAI grabber: a local proxy that captures
//! chat-completion traffic and stores it with secret headers flagged.

pub mod config;
pub mod ident;
pub mod json;
pub mod proxy;
pub mod store;
pub mod text;
pub mod time;
pub mod ui;
