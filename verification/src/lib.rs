//! Keeps one of several running media players in focus.
//!
//! The crate holds the decisions of the tool: which player is current, how
//! the choice moves through the list of running players, which arguments go
//! to the backend, and how a follow-mode stream reacts when another instance
//! changes the choice. Reading files, spawning the backend and sending
//! signals are left to the caller.

pub mod command;
pub mod error;
pub mod follow;
pub mod notify;
pub mod paths;
pub mod peers;
pub mod players;
pub mod selection;
pub mod session;
pub mod store;
pub mod text;
