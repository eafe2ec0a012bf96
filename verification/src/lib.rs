//! Core logic of a minimal real-time chat server: presence tracking
//! (connect, disconnect, display names) and an append-only message log,
//! with validation of client-supplied names and message text.
//!
//! The durable table store and the network transport are external to this
//! crate; the state here models the two tables (users and messages) and
//! every operation on them is verified against its contract.

pub mod chat;
pub mod validate;
