//! Account bodies: `Account` as the server returns it, `NewAccount` for
//! creation and `AccountUpdate` for `PUT /api/v1/accounts/{id}`.

use vstd::prelude::*;

use crate::text::clone_opt;

verus! {

/// An account as the server returns it.
#[derive(Debug, Clone, PartialEq, Eq)]
pub struct Account {
    pub id: String,
    pub name: String,
    pub account_type: String,
    pub currency: String,
    pub is_default: bool,
    pub is_active: bool,
    pub is_archived: bool,
    pub tracking_mode: String,
    pub group: Option<String>,
    pub platform_id: Option<String>,
    pub account_number: Option<String>,
    pub meta: Option<String>,
    pub provider: Option<String>,
    pub provider_account_id: Option<String>,
    pub created_at: Option<String>,
    pub updated_at: Option<String>,
}

/// Body of `POST /api/v1/accounts`.
#[derive(Debug, Clone, PartialEq, Eq)]
pub struct NewAccount {
    pub name: String,
    pub account_type: String,
    pub currency: String,
    pub is_default: bool,
    pub is_active: bool,
    /// `HOLDINGS` or `TRANSACTIONS`.
    pub tracking_mode: String,
    pub group: Option<String>,
    pub platform_id: Option<String>,
    pub account_number: Option<String>,
}

/// Body of `PUT /api/v1/accounts/{id}`. The server requires every
/// non-optional field, so an update starts from the full current `Account`.
#[derive(Debug, Clone, PartialEq, Eq)]
pub struct AccountUpdate {
    pub id: String,
    pub name: String,
    pub account_type: String,
    pub currency: String,
    pub is_default: bool,
    pub is_active: bool,
    pub tracking_mode: String,
    pub group: Option<String>,
    pub platform_id: Option<String>,
    pub account_number: Option<String>,
}

/// The update body that leaves an account as it is: its mutable fields.
pub open spec fn update_of(a: Account) -> AccountUpdate {
    AccountUpdate {
        id: a.id,
        name: a.name,
        account_type: a.account_type,
        currency: a.currency,
        is_default: a.is_default,
        is_active: a.is_active,
        tracking_mode: a.tracking_mode,
        group: a.group,
        platform_id: a.platform_id,
        account_number: a.account_number,
    }
}

impl<'a> From<&'a Account> for AccountUpdate {
    fn from(a: &'a Account) -> (res: Self) {
        AccountUpdate {
            id: a.id.clone(),
            name: a.name.clone(),
            account_type: a.account_type.clone(),
            currency: a.currency.clone(),
            is_default: a.is_default,
            is_active: a.is_active,
            tracking_mode: a.tracking_mode.clone(),
            group: clone_opt(&a.group),
            platform_id: clone_opt(&a.platform_id),
            account_number: clone_opt(&a.account_number),
        }
    }
}

impl<'a> vstd::std_specs::convert::FromSpecImpl<&'a Account> for AccountUpdate {
    open spec fn obeys_from_spec() -> bool {
        true
    }

    open spec fn from_spec(a: &'a Account) -> Self {
        update_of(*a)
    }
}

} // verus!
