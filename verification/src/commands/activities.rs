//! The `activities` subcommands: what each one asks of the server, and what
//! it makes of the answers.

use vstd::prelude::*;
use vstd::string::*;

use crate::config::Config;
use crate::models::activity::{ActivityBulkMutationRequest, ActivitySearchRequest, NewActivity};
use crate::text::clone_opt;

pub use crate::commands::csv_map::map_csv_to_activities;

verus! {

/// An `activities` subcommand.
#[derive(Debug, Clone, PartialEq, Eq)]
pub enum ActivityCmd {
    /// Have the server parse a CSV file, writing nothing.
    ImportParse { account: String, file: String, json: bool },
    /// Parse, map and check a CSV file, writing nothing.
    ImportCheck { account: String, file: String, json: bool },
    /// Parse, map and import a CSV file.
    Import { account: String, file: String, json: bool },
    /// Create activities from a JSON file in one bulk mutation.
    BulkCreate { file: String, json: bool },
    /// List activities, page by page (0-indexed).
    Search {
        account: Option<String>,
        page: i64,
        page_size: i64,
        date_from: Option<String>,
        date_to: Option<String>,
        json: bool,
    },
    /// Delete one activity by id.
    Delete { id: String },
}

/// What an `activities` subcommand does against the server.
#[derive(Debug, Clone, PartialEq, Eq)]
pub enum ActivityAction {
    /// Upload `file` for `account` to `parse_url`, then print the parse.
    ImportParse { parse_url: String, account: String, file: String, json: bool },
    /// Upload to `parse_url`, map the rows, `POST` them to `check_url`.
    ImportCheck { parse_url: String, check_url: String, account: String, file: String, json: bool },
    /// Upload to `parse_url`, map the rows, `POST` them to `import_url`.
    Import { parse_url: String, import_url: String, account: String, file: String, json: bool },
    /// Read `file` as a bulk mutation and `POST` it to `url`.
    BulkCreate { url: String, file: String, json: bool },
    /// `POST body` to `url`, then print the page.
    Search { url: String, body: ActivitySearchRequest, json: bool },
    /// `DELETE url`, then report `id` as deleted.
    Delete { url: String, id: String },
}

/// The API path of the CSV parse endpoint.
pub open spec fn parse_path() -> Seq<char> {
    "/api/v1/activities/import/parse"@
}

/// The API path of the CSV check endpoint.
pub open spec fn check_path() -> Seq<char> {
    "/api/v1/activities/import/check"@
}

/// The API path of the CSV import endpoint.
pub open spec fn import_path() -> Seq<char> {
    "/api/v1/activities/import"@
}

/// The API path of the bulk mutation endpoint.
pub open spec fn bulk_path() -> Seq<char> {
    "/api/v1/activities/bulk"@
}

/// The API path of the search endpoint.
pub open spec fn search_path() -> Seq<char> {
    "/api/v1/activities/search"@
}

/// The API path of one activity.
pub open spec fn activity_path(id: Seq<char>) -> Seq<char> {
    "/api/v1/activities/"@ + id
}

/// The URL of one activity.
fn activity_url(cfg: &Config, id: &String) -> (res: String)
    ensures
        res@ == cfg.base_url@ + activity_path(id@),
{
    let mut s = cfg.url("/api/v1/activities/");
    s.append(id.as_str());
    proof {
        assert(cfg.base_url@ + "/api/v1/activities/"@ + id@ =~= cfg.base_url@ + activity_path(id@));
    }
    s
}

/// Decides what the server is asked to do for an `activities` subcommand.
pub fn run(cfg: &Config, cmd: &ActivityCmd) -> (res: ActivityAction)
    ensures
        match *cmd {
            ActivityCmd::ImportParse { account, file, json } => res matches ActivityAction::ImportParse {
                parse_url,
                account: a,
                file: f,
                json: j,
            } && parse_url@ == cfg.base_url@ + parse_path() && a == account && f == file && j == json,
            ActivityCmd::ImportCheck { account, file, json } => res matches ActivityAction::ImportCheck {
                parse_url,
                check_url,
                account: a,
                file: f,
                json: j,
            } && parse_url@ == cfg.base_url@ + parse_path() && check_url@ == cfg.base_url@
                + check_path() && a == account && f == file && j == json,
            ActivityCmd::Import { account, file, json } => res matches ActivityAction::Import {
                parse_url,
                import_url,
                account: a,
                file: f,
                json: j,
            } && parse_url@ == cfg.base_url@ + parse_path() && import_url@ == cfg.base_url@
                + import_path() && a == account && f == file && j == json,
            ActivityCmd::BulkCreate { file, json } => res matches ActivityAction::BulkCreate {
                url,
                file: f,
                json: j,
            } && url@ == cfg.base_url@ + bulk_path() && f == file && j == json,
            ActivityCmd::Search { account, page, page_size, date_from, date_to, json } => res matches ActivityAction::Search {
                url,
                body,
                json: j,
            } && url@ == cfg.base_url@ + search_path() && j == json && body == (ActivitySearchRequest {
                page,
                page_size,
                account_id_filter: account,
                activity_type_filter: None,
                date_from,
                date_to,
            }),
            ActivityCmd::Delete { id } => res matches ActivityAction::Delete { url, id: i } && url@
                == cfg.base_url@ + activity_path(id@) && i == id,
        },
{
    match cmd {
        ActivityCmd::ImportParse { account, file, json } => ActivityAction::ImportParse {
            parse_url: cfg.url("/api/v1/activities/import/parse"),
            account: account.clone(),
            file: file.clone(),
            json: *json,
        },
        ActivityCmd::ImportCheck { account, file, json } => ActivityAction::ImportCheck {
            parse_url: cfg.url("/api/v1/activities/import/parse"),
            check_url: cfg.url("/api/v1/activities/import/check"),
            account: account.clone(),
            file: file.clone(),
            json: *json,
        },
        ActivityCmd::Import { account, file, json } => ActivityAction::Import {
            parse_url: cfg.url("/api/v1/activities/import/parse"),
            import_url: cfg.url("/api/v1/activities/import"),
            account: account.clone(),
            file: file.clone(),
            json: *json,
        },
        ActivityCmd::BulkCreate { file, json } => ActivityAction::BulkCreate {
            url: cfg.url("/api/v1/activities/bulk"),
            file: file.clone(),
            json: *json,
        },
        ActivityCmd::Search { account, page, page_size, date_from, date_to, json } => ActivityAction::Search {
            url: cfg.url("/api/v1/activities/search"),
            body: ActivitySearchRequest {
                page: *page,
                page_size: *page_size,
                account_id_filter: clone_opt(account),
                activity_type_filter: None,
                date_from: clone_opt(date_from),
                date_to: clone_opt(date_to),
            },
            json: *json,
        },
        ActivityCmd::Delete { id } => ActivityAction::Delete {
            url: activity_url(cfg, id),
            id: id.clone(),
        },
    }
}

/// The shape of a `bulk-create` input once read as JSON.
#[derive(Debug, Clone, PartialEq, Eq)]
pub enum BulkInput {
    /// A top-level array of activities to create.
    Array(Vec<NewActivity>),
    /// A full mutation object.
    Object(ActivityBulkMutationRequest),
    /// A number, string, boolean or null.
    Scalar,
}

/// Why a `bulk-create` input was refused.
#[derive(Debug, Clone, Copy, PartialEq, Eq)]
pub enum BulkBodyError {
    /// The input is neither an array nor an object.
    Scalar,
    /// The mutation creates, updates and deletes nothing.
    NothingToDo,
}

/// The message that `BulkBodyError` displays.
pub open spec fn bulk_body_error_message(e: BulkBodyError) -> Seq<char> {
    match e {
        BulkBodyError::Scalar => "expected JSON array or object, got scalar"@,
        BulkBodyError::NothingToDo => "nothing to do: creates/updates/deleteIds all empty"@,
    }
}

impl BulkBodyError {
    /// The human-readable message for this error.
    pub fn to_string(&self) -> (res: String)
        ensures
            res@ == bulk_body_error_message(*self),
    {
        match self {
            BulkBodyError::Scalar => String::from_str("expected JSON array or object, got scalar"),
            BulkBodyError::NothingToDo => String::from_str(
                "nothing to do: creates/updates/deleteIds all empty",
            ),
        }
    }
}

/// The mutation that a `bulk-create` input stands for: an array becomes
/// the `creates` of an otherwise empty mutation, an object is taken as it
/// is; a scalar, or a mutation that does nothing, is refused.
pub fn bulk_body(input: BulkInput) -> (res: Result<ActivityBulkMutationRequest, BulkBodyError>)
    ensures
        match input {
            BulkInput::Scalar => res == Err::<ActivityBulkMutationRequest, BulkBodyError>(
                BulkBodyError::Scalar,
            ),
            BulkInput::Array(creates) => if creates@.len() == 0 {
                res == Err::<ActivityBulkMutationRequest, BulkBodyError>(BulkBodyError::NothingToDo)
            } else {
                res matches Ok(b) && b.creates == creates && b.updates@.len() == 0
                    && b.delete_ids@.len() == 0
            },
            BulkInput::Object(m) => if m.creates@.len() == 0 && m.updates@.len() == 0
                && m.delete_ids@.len() == 0 {
                res == Err::<ActivityBulkMutationRequest, BulkBodyError>(BulkBodyError::NothingToDo)
            } else {
                res == Ok::<ActivityBulkMutationRequest, BulkBodyError>(m)
            },
        },
{
    let body = match input {
        BulkInput::Array(creates) => ActivityBulkMutationRequest {
            creates,
            updates: Vec::new(),
            delete_ids: Vec::new(),
        },
        BulkInput::Object(m) => m,
        BulkInput::Scalar => {
            return Err(BulkBodyError::Scalar);
        },
    };
    if body.creates.len() == 0 && body.updates.len() == 0 && body.delete_ids.len() == 0 {
        return Err(BulkBodyError::NothingToDo);
    }
    Ok(body)
}

} // verus!
