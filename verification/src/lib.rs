//! Session and streaming core of a multi-tenant HTTP front-end for
//! long-running conversational agents.
//!
//! The crate arbitrates concurrent client requests over a bounded pool of
//! stateful agent sessions, enforces exclusive-writer access per session,
//! and converts an agent's event feed into protocol-shaped SSE frames.
pub mod error;
pub mod events;
pub mod messages;
pub mod lifecycle;
pub mod session;
pub mod ids;
pub mod manager;
pub mod strutil;
pub mod json;
pub mod simple;
pub mod completion;
pub mod response;
pub mod http;
pub mod perm;
pub mod command;
pub mod streaming;
