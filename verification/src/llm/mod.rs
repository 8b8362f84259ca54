//! Talking to language models: provider-neutral types, the fake provider
//! and the OpenAI-compatible protocol.
pub mod provider;
pub mod fake;
pub mod openai;
pub mod sse;
