//! Activity bodies.
//!
//! * `/api/v1/activities/import/{parse,check,import}`: the CSV flow. A CSV
//!   file is parsed by the server into rows, the rows are mapped to
//!   `ActivityImport` values, which are then checked or imported.
//! * `/api/v1/activities/bulk`: the typed flow with `NewActivity` values.
//! * `/api/v1/activities/search`: paged listing.
//!
//! JSON values that the server passes through without a fixed shape are
//! held as their JSON text.

use vstd::prelude::*;

verus! {

/// Answer of `POST /api/v1/activities/import/parse`: the CSV as rows.
#[derive(Debug, Clone, PartialEq, Eq)]
pub struct ImportParseResponse {
    pub headers: Vec<String>,
    pub rows: Vec<Vec<String>>,
    /// The detected CSV configuration, as JSON text.
    pub detected_config: String,
    /// Parse errors, each as JSON text.
    pub errors: Vec<String>,
    pub row_count: u64,
}

/// A row sent to `/import/check` and `/import`, and returned by the check
/// with the server's findings filled in.
#[derive(Debug, Clone, Default, PartialEq, Eq)]
pub struct ActivityImport {
    pub id: Option<String>,
    pub date: String,
    /// Empty, or `$CASH-XXX` for cash activities.
    pub symbol: String,
    pub activity_type: String,
    pub quantity: Option<String>,
    pub unit_price: Option<String>,
    pub currency: String,
    pub fee: Option<String>,
    pub amount: Option<String>,
    pub comment: Option<String>,
    pub account_id: Option<String>,
    pub subtype: Option<String>,
    pub fx_rate: Option<String>,
    pub is_draft: bool,
    pub is_valid: bool,
    /// Validation errors found by the server, as JSON text.
    pub errors: Option<String>,
    /// Validation warnings found by the server, as JSON text.
    pub warnings: Option<String>,
    /// Id of the existing activity this row duplicates.
    pub duplicate_of_id: Option<String>,
}

/// The value that a missing `isValid` field takes when a row is read.
pub fn default_true() -> (res: bool)
    ensures
        res,
{
    true
}

/// An activity to create, alone or in the `creates` of a bulk mutation.
#[derive(Debug, Clone, Default, PartialEq, Eq)]
pub struct NewActivity {
    pub id: Option<String>,
    pub account_id: String,
    /// Asset to resolve, as JSON text; `None` for cash activities.
    pub asset: Option<String>,
    pub activity_type: String,
    pub subtype: Option<String>,
    pub activity_date: String,
    pub quantity: Option<String>,
    pub unit_price: Option<String>,
    pub currency: String,
    pub fee: Option<String>,
    pub amount: Option<String>,
    /// `POSTED`, `PENDING`, `DRAFT` or `VOID`.
    pub status: Option<String>,
    pub notes: Option<String>,
    pub fx_rate: Option<String>,
    pub metadata: Option<String>,
    pub needs_review: Option<bool>,
    /// Originating system, such as `LINE_BANK`, `CSV` or `MANUAL`.
    pub source_system: Option<String>,
    /// Stable record id on the provider's side; part of the idempotency key.
    pub source_record_id: Option<String>,
    pub source_group_id: Option<String>,
    /// A precomputed idempotency key, used by the server as given.
    pub idempotency_key: Option<String>,
}

/// Body of `POST /api/v1/activities/bulk`.
#[derive(Debug, Clone, PartialEq, Eq)]
pub struct ActivityBulkMutationRequest {
    pub creates: Vec<NewActivity>,
    /// Updates, each as JSON text.
    pub updates: Vec<String>,
    pub delete_ids: Vec<String>,
}

/// Body of `POST /api/v1/activities/search`.
#[derive(Debug, Clone, Default, PartialEq, Eq)]
pub struct ActivitySearchRequest {
    /// 0-indexed page number.
    pub page: i64,
    pub page_size: i64,
    pub account_id_filter: Option<String>,
    pub activity_type_filter: Option<Vec<String>>,
    pub date_from: Option<String>,
    pub date_to: Option<String>,
}

} // verus!
