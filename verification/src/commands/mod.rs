//! What the subcommands decide and compute.

pub mod accounts;
pub mod activities;
pub mod activity_output;
pub mod csv_map;
pub mod doctor;
pub mod net_worth;

use vstd::prelude::*;
use vstd::string::*;

use accounts::AccountCmd;
use activities::ActivityCmd;
use net_worth::NetWorthCmd;

verus! {

/// A top-level subcommand.
#[derive(Debug, Clone, PartialEq, Eq)]
pub enum Cmd {
    /// Force a fresh login and update the cached session.
    Login,
    /// Wipe the cached session.
    Logout,
    /// End-to-end health check: configuration, connectivity, login.
    Doctor,
    /// Account operations.
    Accounts(AccountCmd),
    /// Activity operations: CSV import, JSON bulk-create, search, delete.
    Activities(ActivityCmd),
    /// Net-worth snapshots.
    NetWorth(NetWorthCmd),
}

/// The default log filter for a verbosity count: `warn`, then `info` with
/// debug output from this crate, then `debug`, then `trace`.
pub open spec fn log_filter(verbose: u8) -> Seq<char> {
    if verbose == 0 {
        "warn"@
    } else if verbose == 1 {
        "info,wealthfolio_cli=debug"@
    } else if verbose == 2 {
        "debug"@
    } else {
        "trace"@
    }
}

/// The default log filter for a verbosity count.
pub fn default_log_filter(verbose: u8) -> (res: String)
    ensures
        res@ == log_filter(verbose),
{
    if verbose == 0 {
        String::from_str("warn")
    } else if verbose == 1 {
        String::from_str("info,wealthfolio_cli=debug")
    } else if verbose == 2 {
        String::from_str("debug")
    } else {
        String::from_str("trace")
    }
}

} // verus!
