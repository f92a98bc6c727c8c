//! Completion streaming engine for an assistant-chat client.
//!
//! Given a prompt, conversation history, and a selected provider credential,
//! the library assembles a provider-specific HTTP request, decodes that
//! provider's incremental response wire format (OpenAI-style SSE,
//! Anthropic-style SSE, Google-style chunked JSON-array framing) into a
//! normalized token sequence, and drives delivery of that sequence under
//! rate limiting and cooperative cancellation, with uniform failure
//! reporting. The surrounding I/O (HTTP transport, task spawning, sinks)
//! is left to the embedding application.

pub mod config;
pub mod decode;
pub mod json;
pub mod request;
pub mod stream;
pub mod text;
pub mod widgets;
