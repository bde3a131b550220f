//! Liveness checks for Telegram bots.
//!
//! A probe message is sent to a bot, the probe is recorded in a [`registry::PingList`],
//! and any message that arrives from the bot within a short grace period marks the
//! record as answered. Records older than a minute are dropped whenever the list is read.
//!
//! The crate holds the rules of that scheme: the record list, the life of one
//! liveness query, the handling of inbound updates, and the checks made on
//! callers and on configuration. Sockets, the Telegram session and the HTTP server
//! are left to the program that embeds it.

mod clock;
pub mod config;
pub mod digest;
pub mod listener;
pub mod message;
pub mod query;
pub mod registry;
pub mod state;
pub mod text;
