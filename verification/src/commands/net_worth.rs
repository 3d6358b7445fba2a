//! The `net-worth` subcommands.

use vstd::prelude::*;

use crate::config::Config;

verus! {

/// A `net-worth` subcommand.
#[derive(Debug, Clone, PartialEq, Eq)]
pub enum NetWorthCmd {
    /// The current net worth snapshot.
    Current { json: bool },
}

/// What a `net-worth` subcommand does against the server.
#[derive(Debug, Clone, PartialEq, Eq)]
pub enum NetWorthAction {
    /// `GET url`, then print the snapshot.
    Current { url: String, json: bool },
}

/// The API path of the net worth snapshot.
pub open spec fn net_worth_path() -> Seq<char> {
    "/api/v1/net-worth"@
}

/// Decides what the server is asked to do for a `net-worth` subcommand.
pub fn run(cfg: &Config, cmd: &NetWorthCmd) -> (res: NetWorthAction)
    ensures
        match *cmd {
            NetWorthCmd::Current { json } => res matches NetWorthAction::Current { url, json: j }
                && url@ == cfg.base_url@ + net_worth_path() && j == json,
        },
{
    match cmd {
        NetWorthCmd::Current { json } => NetWorthAction::Current {
            url: cfg.url("/api/v1/net-worth"),
            json: *json,
        },
    }
}

} // verus!
