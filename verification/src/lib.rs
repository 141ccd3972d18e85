//! A chat bot's fail-soft caching layer, with the pure decisions of the
//! commands that use it.
//!
//! The cache memoises expensive lookups and keeps short-lived state per
//! conversation in an external key-value store. Every failure degrades to a
//! miss or to a skipped write; none reaches the caller as an error.
//!
//! Nothing in this crate performs I/O. An operation of the cache is a short
//! protocol: each state names the one effect that the caller must perform
//! (encode a value, acquire a connection, send a command, decode a payload),
//! and takes the result of that effect to produce the next state.

pub mod cache;
pub mod commands;
pub mod config;
pub mod ddg;
pub mod decimal;
pub mod keys;
pub mod model;
pub mod pool;
pub mod protocol;
pub mod reminders;
pub mod roll;
pub mod stats;
pub mod status;
pub mod wire;
