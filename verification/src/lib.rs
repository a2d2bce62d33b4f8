//! Core of a chat client that persists conversations and forwards the latest
//! user turn to an external language-model provider.
//!
//! The crate holds the in-memory conversation store and the bot-reply
//! orchestration: precondition checks, the framed event protocol delivered to
//! a subscriber, out-of-band cancellation bookkeeping, and the rule that a
//! reply is persisted exactly once, and only when the completion succeeded.
//! The surrounding process performs the actual I/O (database connection,
//! provider call, event transport) and drives the orchestration state machine
//! through its step function.

pub mod commands;
pub mod db;
pub mod entities;
pub mod errors;
pub mod orchestrator;
pub mod text;
