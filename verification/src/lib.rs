//! Decisions of a command-line client for a remote file store.
//!
//! The library performs no remote call itself. Each operation is a function
//! from what the remote store answered to what has to be asked of it next;
//! whoever holds the session makes the calls.

pub mod account;
pub mod common;
pub mod files;
