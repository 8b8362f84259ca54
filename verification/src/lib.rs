//! A local-first chat client for OpenAI-compatible LLM endpoints: the
//! verified core (context budgeting, the chat state machine, provider
//! protocol handling, markdown layout, tools and persistence helpers).
pub mod text;
pub mod domain;
pub mod context;
pub mod platform;
pub mod llm;
pub mod events;
pub mod app;
pub mod config;
pub mod error;
pub mod image;
pub mod persistence;
pub mod tools;
pub mod tui;
pub mod markdown;
pub mod records;
