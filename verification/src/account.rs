//! Accounts known to the client.

pub mod current;
