//! Errors that the server's answers give rise to.

use vstd::prelude::*;
use vstd::string::*;

use crate::text::{decimal, push_decimal};

verus! {

/// An error reported by the Wealthfolio server or the login flow.
#[derive(Debug, Clone, PartialEq, Eq)]
pub enum WfError {
    /// No password is configured, so no login can be attempted.
    PasswordMissing,
    /// The login endpoint answered with this non-success HTTP status.
    LoginFailed(u16),
    /// An API call answered with a non-success status and this body.
    Http { status: u16, body: String },
}

/// The message that `WfError` displays.
pub open spec fn wf_error_message(e: WfError) -> Seq<char> {
    match e {
        WfError::PasswordMissing => "WEALTHFOLIO_PASSWORD not set; cannot login"@,
        WfError::LoginFailed(status) => "login failed (HTTP "@ + decimal(status as nat)
            + "); check WEALTHFOLIO_PASSWORD"@,
        WfError::Http { status, body } => "server returned "@ + decimal(status as nat) + ": "@
            + body@,
    }
}

impl WfError {
    /// The human-readable message for this error.
    pub fn to_string(&self) -> (res: String)
        ensures
            res@ == wf_error_message(*self),
    {
        match self {
            WfError::PasswordMissing => String::from_str("WEALTHFOLIO_PASSWORD not set; cannot login"),
            WfError::LoginFailed(status) => {
                let mut s = String::from_str("login failed (HTTP ");
                push_decimal(&mut s, *status as u64);
                s.append("); check WEALTHFOLIO_PASSWORD");
                s
            },
            WfError::Http { status, body } => {
                let mut s = String::from_str("server returned ");
                push_decimal(&mut s, *status as u64);
                s.append(": ");
                s.append(body.as_str());
                s
            },
        }
    }
}

/// Whether an HTTP status is a success (`StatusCode::is_success`): 200..=299.
pub open spec fn is_success_status(status: u16) -> bool {
    200 <= status <= 299
}

/// Whether an HTTP status is a success, as `StatusCode::is_success` answers.
pub fn status_is_success(status: u16) -> (res: bool)
    ensures
        res == is_success_status(status),
{
    200 <= status && status <= 299
}

} // verus!
