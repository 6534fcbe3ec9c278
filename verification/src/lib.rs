//! Client-side logic for a local language-model inference server and the
//! orchestration that turns feature flags into a correction prompt.
//!
//! The crate holds the protocol logic itself: building request bodies,
//! interpreting responses, framing the newline-delimited progress stream of
//! a model download, and the policy of the enhancement orchestrator. The
//! HTTP transport is the caller's affair; every function here works on plain
//! values that a transport hands in or takes out.

pub mod errors;
pub mod manager;
pub mod ollama_client;
pub mod pull;
pub mod system_info;
