//! Request and response bodies of the Wealthfolio REST API.

pub mod account;
pub mod activity;
