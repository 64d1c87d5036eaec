//! A verified command dispatch engine for structured remote invocations.
//!
//! Inbound interactions (slash commands, context-menu clicks, autocomplete
//! requests) are matched against a statically declared command tree, pass
//! through an admission pipeline (custom checks, permissions, cooldowns) and
//! are then executed exactly once, with panics and errors isolated at the
//! dispatch boundary. The gateway connection, the wire encoding of outbound
//! payloads and the async runtime are external collaborators: this crate
//! works on plain values and decides; an embedding performs the I/O.

pub mod autocomplete;
pub mod checks;
pub mod cooldown;
pub mod dispatch;
pub mod interaction;
pub mod reply;
pub mod resolve;
pub mod tree;
