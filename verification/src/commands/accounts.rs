//! The `accounts` subcommands: what each one asks of the server, and what
//! it makes of the answers.

use vstd::prelude::*;
use vstd::string::*;

use crate::config::Config;
use crate::models::account::{update_of, Account, AccountUpdate, NewAccount};
use crate::text::{clone_opt, pad_right, push_padded_right, string_eq_str};

verus! {

/// An `accounts` subcommand.
#[derive(Debug, Clone, PartialEq, Eq)]
#[allow(inconsistent_fields)]
pub enum AccountCmd {
    /// List all accounts.
    List { json: bool },
    /// Get one account by id.
    Get { id: String, json: bool },
    /// Create a new account.
    Create {
        name: String,
        currency: String,
        /// Common values: SAVINGS, BROKERAGE, CRYPTO, CASH, ASSET.
        account_type: String,
        /// HOLDINGS or TRANSACTIONS.
        tracking: String,
        default: bool,
        platform_id: Option<String>,
        group: Option<String>,
        account_number: Option<String>,
        json: bool,
    },
    /// Update an account: fetch it, apply the given changes, send it back.
    Update {
        id: String,
        name: Option<String>,
        currency: Option<String>,
        account_type: Option<String>,
        tracking: Option<String>,
        group: Option<String>,
        platform_id: Option<String>,
        account_number: Option<String>,
        default: Option<bool>,
        active: Option<bool>,
        json: bool,
    },
    /// Delete an account by id.
    Delete { id: String },
}

/// The changes an update asks for; `None` leaves a field as it is.
#[derive(Debug, Clone, PartialEq, Eq)]
pub struct UpdateArgs {
    pub id: String,
    pub name: Option<String>,
    pub currency: Option<String>,
    pub account_type: Option<String>,
    pub tracking: Option<String>,
    pub group: Option<String>,
    pub platform_id: Option<String>,
    pub account_number: Option<String>,
    pub is_default: Option<bool>,
    pub is_active: Option<bool>,
    pub emit_json: bool,
}

/// What an `accounts` subcommand does against the server.
#[derive(Debug, Clone, PartialEq, Eq)]
pub enum AccountAction {
    /// `GET url` (the account list), then print it.
    List { url: String, json: bool },
    /// `GET url` (the account list), then print the account `id`.
    Get { url: String, id: String, json: bool },
    /// `POST url` with `body`, then print the created account.
    Create { url: String, body: NewAccount, json: bool },
    /// `GET list_url`, apply `args` to the account `args.id`, `PUT put_url`.
    Update { list_url: String, put_url: String, args: UpdateArgs },
    /// `DELETE url`, then report `id` as deleted.
    Delete { url: String, id: String },
}

/// The API path of the account list.
pub open spec fn accounts_path() -> Seq<char> {
    "/api/v1/accounts"@
}

/// The API path of one account.
pub open spec fn account_path(id: Seq<char>) -> Seq<char> {
    "/api/v1/accounts/"@ + id
}

/// The body that creates an account from the `create` arguments; new
/// accounts are active.
pub open spec fn new_account_body(
    name: String,
    currency: String,
    account_type: String,
    tracking: String,
    is_default: bool,
    platform_id: Option<String>,
    group: Option<String>,
    account_number: Option<String>,
) -> NewAccount {
    NewAccount {
        name,
        account_type,
        currency,
        is_default,
        is_active: true,
        tracking_mode: tracking,
        group,
        platform_id,
        account_number,
    }
}

/// The URL of an API path.
fn api_url(cfg: &Config, path: &str) -> (res: String)
    ensures
        res@ == cfg.base_url@ + path@,
{
    cfg.url(path)
}

/// The URL of one account.
fn account_url(cfg: &Config, id: &String) -> (res: String)
    ensures
        res@ == cfg.base_url@ + account_path(id@),
{
    let mut s = cfg.url("/api/v1/accounts/");
    s.append(id.as_str());
    proof {
        assert(cfg.base_url@ + "/api/v1/accounts/"@ + id@ =~= cfg.base_url@ + account_path(id@));
    }
    s
}


/// Decides what the server is asked to do for an `accounts` subcommand.
pub fn run(cfg: &Config, cmd: &AccountCmd) -> (res: AccountAction)
    ensures
        match *cmd {
            AccountCmd::List { json } => res matches AccountAction::List { url, json: j } && url@
                == cfg.base_url@ + accounts_path() && j == json,
            AccountCmd::Get { id, json } => res matches AccountAction::Get { url, id: i, json: j }
                && url@ == cfg.base_url@ + accounts_path() && i == id && j == json,
            AccountCmd::Create {
                name,
                currency,
                account_type,
                tracking,
                default,
                platform_id,
                group,
                account_number,
                json,
            } => res matches AccountAction::Create { url, body, json: j } && url@ == cfg.base_url@
                + accounts_path() && j == json && body == new_account_body(
                name,
                currency,
                account_type,
                tracking,
                default,
                platform_id,
                group,
                account_number,
            ) && body.name == name && body.currency == currency && body.account_type
                == account_type && body.tracking_mode == tracking && body.is_default == default
                && body.is_active && body.group == group && body.platform_id == platform_id
                && body.account_number == account_number,
            AccountCmd::Update {
                id,
                name,
                currency,
                account_type,
                tracking,
                group,
                platform_id,
                account_number,
                default,
                active,
                json,
            } => res matches AccountAction::Update { list_url, put_url, args } && list_url@
                == cfg.base_url@ + accounts_path() && put_url@ == cfg.base_url@ + account_path(id@)
                && args == (UpdateArgs {
                id,
                name,
                currency,
                account_type,
                tracking,
                group,
                platform_id,
                account_number,
                is_default: default,
                is_active: active,
                emit_json: json,
            }),
            AccountCmd::Delete { id } => res matches AccountAction::Delete { url, id: i } && url@
                == cfg.base_url@ + account_path(id@) && i == id,
        },
{
    match cmd {
        AccountCmd::List { json } => AccountAction::List {
            url: api_url(cfg, "/api/v1/accounts"),
            json: *json,
        },
        AccountCmd::Get { id, json } => AccountAction::Get {
            url: api_url(cfg, "/api/v1/accounts"),
            id: id.clone(),
            json: *json,
        },
        AccountCmd::Create {
            name,
            currency,
            account_type,
            tracking,
            default,
            platform_id,
            group,
            account_number,
            json,
        } => AccountAction::Create {
            url: api_url(cfg, "/api/v1/accounts"),
            body: NewAccount {
                name: name.clone(),
                account_type: account_type.clone(),
                currency: currency.clone(),
                is_default: *default,
                is_active: true,
                tracking_mode: tracking.clone(),
                group: clone_opt(group),
                platform_id: clone_opt(platform_id),
                account_number: clone_opt(account_number),
            },
            json: *json,
        },
        AccountCmd::Update {
            id,
            name,
            currency,
            account_type,
            tracking,
            group,
            platform_id,
            account_number,
            default,
            active,
            json,
        } => AccountAction::Update {
            list_url: api_url(cfg, "/api/v1/accounts"),
            put_url: account_url(cfg, id),
            args: UpdateArgs {
                id: id.clone(),
                name: clone_opt(name),
                currency: clone_opt(currency),
                account_type: clone_opt(account_type),
                tracking: clone_opt(tracking),
                group: clone_opt(group),
                platform_id: clone_opt(platform_id),
                account_number: clone_opt(account_number),
                is_default: *default,
                is_active: *active,
                emit_json: *json,
            },
        },
        AccountCmd::Delete { id } => AccountAction::Delete {
            url: account_url(cfg, id),
            id: id.clone(),
        },
    }
}

/// Why an account command failed after the server answered.
#[derive(Debug, Clone, PartialEq, Eq)]
pub enum AccountError {
    /// The account list has no account with this id.
    NotFound(String),
}

/// The message that `AccountError` displays.
pub open spec fn account_error_message(e: AccountError) -> Seq<char> {
    match e {
        AccountError::NotFound(id) => "no account with id "@ + id@,
    }
}

impl AccountError {
    /// The human-readable message for this error.
    pub fn to_string(&self) -> (res: String)
        ensures
            res@ == account_error_message(*self),
    {
        match self {
            AccountError::NotFound(id) => {
                let mut s = String::from_str("no account with id ");
                s.append(id.as_str());
                s
            },
        }
    }
}

/// The position of the first account with id `id`.
pub open spec fn first_with_id(accounts: Seq<Account>, id: Seq<char>) -> Option<int>
    decreases accounts.len(),
{
    if accounts.len() == 0 {
        None
    } else if accounts[0].id@ == id {
        Some(0)
    } else {
        match first_with_id(accounts.drop_first(), id) {
            Some(i) => Some(i + 1),
            None => None,
        }
    }
}

/// `first_with_id` finds the first account whose id is `id`: when it gives a
/// position, the account there has that id and none before it has; when it
/// gives none, no account has that id.
pub proof fn lemma_first_with_id_is_first_match(accounts: Seq<Account>, id: Seq<char>)
    ensures
        match first_with_id(accounts, id) {
            Some(k) => 0 <= k < accounts.len() && accounts[k].id@ == id && forall|j: int|
                0 <= j < k ==> #[trigger] accounts[j].id@ != id,
            None => forall|j: int| 0 <= j < accounts.len() ==> #[trigger] accounts[j].id@ != id,
        },
    decreases accounts.len(),
{
    if accounts.len() > 0 && accounts[0].id@ != id {
        let rest = accounts.drop_first();
        lemma_first_with_id_is_first_match(rest, id);
        match first_with_id(rest, id) {
            Some(k) => {
                assert forall|j: int| 0 <= j < k + 1 implies #[trigger] accounts[j].id@ != id by {
                    if j > 0 {
                        assert(accounts[j] == rest[j - 1]);
                    }
                }
            },
            None => {
                assert forall|j: int| 0 <= j < accounts.len() implies #[trigger] accounts[j].id@
                    != id by {
                    if j > 0 {
                        assert(accounts[j] == rest[j - 1]);
                    }
                }
            },
        }
    }
}

/// The account with id `id` in the list the server returned (the first,
/// if several share it).
#[verifier::loop_isolation(false)]
pub fn fetch_account(accounts: Vec<Account>, id: &str) -> (res: Result<Account, AccountError>)
    ensures
        match first_with_id(accounts@, id@) {
            Some(i) => res == Ok::<Account, AccountError>(accounts@[i]),
            None => res matches Err(AccountError::NotFound(s)) && s@ == id@,
        },
        res is Ok <==> exists|i: int| 0 <= i < accounts@.len() && #[trigger] accounts@[i].id@
            == id@,
        res matches Ok(a) ==> exists|i: int|
            0 <= i < accounts@.len() && #[trigger] accounts@[i] == a && a.id@ == id@ && forall|
                j: int,
            | 0 <= j < i ==> #[trigger] accounts@[j].id@ != id@,
{
    proof {
        lemma_first_with_id_is_first_match(accounts@, id@);
    }
    let ghost all = accounts@;
    let mut list = accounts;
    let mut i: usize = 0;
    proof {
        assert(all.subrange(0, all.len() as int) =~= all);
    }
    while i < list.len()
        invariant
            list@ == all,
            i <= all.len(),
            first_with_id(all, id@) == match first_with_id(
                all.subrange(i as int, all.len() as int),
                id@,
            ) {
                Some(k) => Some(k + i),
                None => None,
            },
        decreases all.len() - i,
    {
        let ghost rest = all.subrange(i as int, all.len() as int);
        if string_eq_str(&list[i].id, id) {
            proof {
                assert(rest[0] == all[i as int]);
                assert(first_with_id(rest, id@) == Some(0int));
            }
            let found = list.remove(i);
            return Ok(found);
        }
        proof {
            assert(rest.drop_first() =~= all.subrange(i + 1, all.len() as int));
        }
        i = i + 1;
    }
    Err(AccountError::NotFound(String::from_str(id)))
}

/// An update body with the requested changes applied.
pub open spec fn patched(base: AccountUpdate, args: UpdateArgs) -> AccountUpdate {
    AccountUpdate {
        id: base.id,
        name: match args.name {
            Some(v) => v,
            None => base.name,
        },
        account_type: match args.account_type {
            Some(v) => v,
            None => base.account_type,
        },
        currency: match args.currency {
            Some(v) => v,
            None => base.currency,
        },
        is_default: match args.is_default {
            Some(v) => v,
            None => base.is_default,
        },
        is_active: match args.is_active {
            Some(v) => v,
            None => base.is_active,
        },
        tracking_mode: match args.tracking {
            Some(v) => v,
            None => base.tracking_mode,
        },
        group: match args.group {
            Some(v) => Some(v),
            None => base.group,
        },
        platform_id: match args.platform_id {
            Some(v) => Some(v),
            None => base.platform_id,
        },
        account_number: match args.account_number {
            Some(v) => Some(v),
            None => base.account_number,
        },
    }
}

/// The body that updates `current` with the requested changes: every field
/// the arguments give is replaced, every other keeps its current value.
pub fn update_body(current: &Account, args: UpdateArgs) -> (res: AccountUpdate)
    ensures
        res == patched(update_of(*current), args),
        res.id == current.id,
        res.name == match args.name {
            Some(v) => v,
            None => current.name,
        },
        res.currency == match args.currency {
            Some(v) => v,
            None => current.currency,
        },
        res.account_type == match args.account_type {
            Some(v) => v,
            None => current.account_type,
        },
        res.tracking_mode == match args.tracking {
            Some(v) => v,
            None => current.tracking_mode,
        },
        res.group == match args.group {
            Some(v) => Some(v),
            None => current.group,
        },
        res.platform_id == match args.platform_id {
            Some(v) => Some(v),
            None => current.platform_id,
        },
        res.account_number == match args.account_number {
            Some(v) => Some(v),
            None => current.account_number,
        },
        res.is_default == match args.is_default {
            Some(v) => v,
            None => current.is_default,
        },
        res.is_active == match args.is_active {
            Some(v) => v,
            None => current.is_active,
        },
{
    let mut body = AccountUpdate::from(current);
    if let Some(v) = args.name {
        body.name = v;
    }
    if let Some(v) = args.currency {
        body.currency = v;
    }
    if let Some(v) = args.account_type {
        body.account_type = v;
    }
    if let Some(v) = args.tracking {
        body.tracking_mode = v;
    }
    if let Some(v) = args.group {
        body.group = Some(v);
    }
    if let Some(v) = args.platform_id {
        body.platform_id = Some(v);
    }
    if let Some(v) = args.account_number {
        body.account_number = Some(v);
    }
    if let Some(v) = args.is_default {
        body.is_default = v;
    }
    if let Some(v) = args.is_active {
        body.is_active = v;
    }
    body
}


/// An update replaces exactly the fields whose flags were given, each by the
/// given value, and keeps every other field of the current account.
pub proof fn lemma_update_applies_given_flags(current: Account, args: UpdateArgs)
    ensures
        patched(update_of(current), args).id == current.id,
        args.name matches Some(v) ==> patched(update_of(current), args).name == v,
        args.name is None ==> patched(update_of(current), args).name == current.name,
        args.currency matches Some(v) ==> patched(update_of(current), args).currency == v,
        args.currency is None ==> patched(update_of(current), args).currency == current.currency,
        args.account_type matches Some(v) ==> patched(update_of(current), args).account_type == v,
        args.account_type is None ==> patched(update_of(current), args).account_type
            == current.account_type,
        args.tracking matches Some(v) ==> patched(update_of(current), args).tracking_mode == v,
        args.tracking is None ==> patched(update_of(current), args).tracking_mode
            == current.tracking_mode,
        args.group matches Some(v) ==> patched(update_of(current), args).group == Some(v),
        args.group is None ==> patched(update_of(current), args).group == current.group,
        args.platform_id matches Some(v) ==> patched(update_of(current), args).platform_id == Some(
            v,
        ),
        args.platform_id is None ==> patched(update_of(current), args).platform_id
            == current.platform_id,
        args.account_number matches Some(v) ==> patched(update_of(current), args).account_number
            == Some(v),
        args.account_number is None ==> patched(update_of(current), args).account_number
            == current.account_number,
        args.is_default matches Some(v) ==> patched(update_of(current), args).is_default == v,
        args.is_default is None ==> patched(update_of(current), args).is_default
            == current.is_default,
        args.is_active matches Some(v) ==> patched(update_of(current), args).is_active == v,
        args.is_active is None ==> patched(update_of(current), args).is_active
            == current.is_active,
{
}

/// The body that creates an account carries each `create` flag in the field
/// of the same name, and a new account is active.
pub proof fn lemma_create_body_carries_flags(
    name: String,
    currency: String,
    account_type: String,
    tracking: String,
    is_default: bool,
    platform_id: Option<String>,
    group: Option<String>,
    account_number: Option<String>,
)
    ensures
        ({
            let b = new_account_body(
                name,
                currency,
                account_type,
                tracking,
                is_default,
                platform_id,
                group,
                account_number,
            );
            &&& b.name == name
            &&& b.currency == currency
            &&& b.account_type == account_type
            &&& b.tracking_mode == tracking
            &&& b.is_default == is_default
            &&& b.is_active
            &&& b.group == group
            &&& b.platform_id == platform_id
            &&& b.account_number == account_number
        }),
{
}

/// The heading of the account table.
pub open spec fn account_table_heading() -> Seq<char> {
    pad_right("ID"@, 36) + "  "@ + pad_right("CURRENCY"@, 10) + "  "@ + pad_right("TYPE"@, 14)
        + "  "@ + pad_right("TRACKING"@, 12) + "  NAME"@
}

/// The table line of an account.
pub open spec fn account_table_line(a: Account) -> Seq<char> {
    pad_right(a.id@, 36) + "  "@ + pad_right(a.currency@, 10) + "  "@ + pad_right(
        a.account_type@,
        14,
    ) + "  "@ + pad_right(a.tracking_mode@, 12) + "  "@ + a.name@
}

/// The lines that list accounts: a note when there are none, else a
/// heading and one line per account, in order.
pub fn account_list_lines(accounts: &Vec<Account>) -> (res: Vec<String>)
    ensures
        accounts@.len() == 0 ==> res@.len() == 1 && res@[0]@ == "(no accounts)"@,
        accounts@.len() > 0 ==> res@.len() == accounts@.len() + 1 && res@[0]@
            == account_table_heading() && forall|i: int|
            0 <= i < accounts@.len() ==> #[trigger] res@[i + 1]@ == account_table_line(
                accounts@[i],
            ),
{
    let mut out: Vec<String> = Vec::new();
    if accounts.len() == 0 {
        out.push(String::from_str("(no accounts)"));
        return out;
    }
    let mut h = String::new();
    push_padded_right(&mut h, "ID", 36);
    h.append("  ");
    push_padded_right(&mut h, "CURRENCY", 10);
    h.append("  ");
    push_padded_right(&mut h, "TYPE", 14);
    h.append("  ");
    push_padded_right(&mut h, "TRACKING", 12);
    h.append("  NAME");
    proof {
        assert(h@ =~= account_table_heading());
    }
    out.push(h);
    let mut i: usize = 0;
    while i < accounts.len()
        invariant
            i <= accounts@.len(),
            out@.len() == i + 1,
            out@[0]@ == account_table_heading(),
            forall|k: int| 0 <= k < i ==> #[trigger] out@[k + 1]@ == account_table_line(accounts@[k]),
        decreases accounts@.len() - i,
    {
        let a = &accounts[i];
        let mut line = String::new();
        push_padded_right(&mut line, a.id.as_str(), 36);
        line.append("  ");
        push_padded_right(&mut line, a.currency.as_str(), 10);
        line.append("  ");
        push_padded_right(&mut line, a.account_type.as_str(), 14);
        line.append("  ");
        push_padded_right(&mut line, a.tracking_mode.as_str(), 12);
        line.append("  ");
        line.append(a.name.as_str());
        proof {
            assert(line@ =~= account_table_line(accounts@[i as int]));
        }
        out.push(line);
        proof {
            assert(out@[i + 1]@ == account_table_line(accounts@[i as int]));
        }
        i = i + 1;
    }
    out
}

/// The line that reports a created account.
pub fn created_line(a: &Account) -> (res: String)
    ensures
        res@ == "created: "@ + a.name@ + " ("@ + a.id@ + ")"@,
{
    let mut s = String::from_str("created: ");
    s.append(a.name.as_str());
    s.append(" (");
    s.append(a.id.as_str());
    s.append(")");
    s
}

/// The line that reports an updated account.
pub fn updated_line(a: &Account) -> (res: String)
    ensures
        res@ == "updated: "@ + a.name@ + " ("@ + a.id@ + ") \u{2014} tracking="@ + a.tracking_mode@
            + " currency="@ + a.currency@,
{
    let mut s = String::from_str("updated: ");
    s.append(a.name.as_str());
    s.append(" (");
    s.append(a.id.as_str());
    s.append(") \u{2014} tracking=");
    s.append(a.tracking_mode.as_str());
    s.append(" currency=");
    s.append(a.currency.as_str());
    s
}

/// The line that reports a deleted record.
pub fn deleted_line(id: &str) -> (res: String)
    ensures
        res@ == "deleted: "@ + id@,
{
    let mut s = String::from_str("deleted: ");
    s.append(id);
    s
}


/// An update that asks for no change sends back the account's current
/// mutable fields, the body `AccountUpdate::from` gives.
pub proof fn lemma_update_without_changes(current: Account, args: UpdateArgs)
    requires
        args.name is None,
        args.currency is None,
        args.account_type is None,
        args.tracking is None,
        args.group is None,
        args.platform_id is None,
        args.account_number is None,
        args.is_default is None,
        args.is_active is None,
    ensures
        patched(update_of(current), args) == update_of(current),
{
}

/// An update never changes the id and never clears an optional field: a
/// field is either replaced by the requested value or kept.
pub proof fn lemma_update_keeps_id_and_optional_fields(current: Account, args: UpdateArgs)
    ensures
        patched(update_of(current), args).id == current.id,
        current.group is Some ==> patched(update_of(current), args).group is Some,
        current.platform_id is Some ==> patched(update_of(current), args).platform_id is Some,
        current.account_number is Some ==> patched(update_of(current), args).account_number is Some,
{
}

} // verus!
