//! Verified core of a session-compacting gateway.

pub mod chat_completions;
pub mod compaction;
pub mod error;
pub mod handler;
pub mod headers;
pub mod internal;
pub mod json;
pub mod laws;
pub mod pool_signals;
pub mod protocol;
pub mod session_prefix;
pub mod split;
pub mod text;
pub mod types;
pub mod wire;
