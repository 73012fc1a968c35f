//! A tool-augmented agent completion core.
//!
//! The library models conversations, schema-described tools, the agent
//! orchestration loop with its iteration bound, provider fallback and
//! streaming sessions.  Concrete model backends sit behind the
//! `CompletionProvider` capability; the loop's decisions are verified here.

pub mod messages;
pub mod errors;
pub mod config;
pub mod schema;
pub mod tools;
pub mod registry;
pub mod provider;
pub mod session;
pub mod agent;
pub mod fallback;
pub mod stream;
