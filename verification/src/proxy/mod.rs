//! The LLM endpoint: what the proxy decides for each request, apart from
//! the network and storage work that the application performs.

pub mod chat;
pub mod exchange;
