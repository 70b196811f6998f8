//! Logswise: a personal productivity library.
//!
//! The library turns a free-text query, a stored user profile and a set of
//! semantically retrieved notes into a single deterministic prompt for a
//! generative model, and decides via model-name rules whether to run in
//! embedding-only (retrieval) mode or generation mode.  Network transport and
//! terminal interaction live outside the library; everything here is pure
//! data transformation with contracts.

pub mod cli;
pub mod flow;
pub mod intent;
pub mod mode;
pub mod ollama;
pub mod prompt;
pub mod supabase;
pub mod perf;
pub mod personalization;
pub mod text;
pub mod types;
pub mod validation;
