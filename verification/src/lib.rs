//! Chat-scoped persistence for a conversational bot, kept free of I/O.
//!
//! Sticker aliases and per-user dialogue state live in hashes of a remote
//! key-value store, one pair of hashes per chat. This crate decides which
//! field of which hash every operation touches and what each reply of the
//! store means for the caller; the code that owns the connection carries the
//! requests to the store and brings the replies back.

pub mod alias;
pub mod decimal;
pub mod dialogue;
pub mod error;
pub mod keys;
pub mod store;
