//! Verified core of a command-line client for the Wealthfolio REST API.

pub mod auth;
pub mod commands;
pub mod config;
pub mod error;
pub mod models;
pub mod text;
