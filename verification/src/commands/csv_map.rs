//! Mapping of server-parsed CSV rows onto `ActivityImport` rows.

use vstd::prelude::*;
use vstd::string::*;

use crate::models::activity::ActivityImport;
use crate::text::{
    ascii_lower, lemma_trim_lower_commute, remove_char,
    chars_eq_str, chars_of, decimal, normalize_name, normalize_name_chars, opt_view, push_decimal,
    string_of, strip_end_char, strip_end_chars, trim, trim_chars,
};

verus! {

/// The `ActivityImport` field that a CSV column feeds.
#[derive(Debug, Clone, Copy, PartialEq, Eq)]
pub enum Column {
    Id,
    Date,
    Symbol,
    ActivityType,
    Quantity,
    UnitPrice,
    Currency,
    Fee,
    Amount,
    Comment,
    Subtype,
    FxRate,
}

/// The column that a normalized header names, if any.
pub open spec fn column_named(norm: Seq<char>) -> Option<Column> {
    if norm == "id"@ {
        Some(Column::Id)
    } else if norm == "date"@ {
        Some(Column::Date)
    } else if norm == "symbol"@ {
        Some(Column::Symbol)
    } else if norm == "activitytype"@ || norm == "type"@ {
        Some(Column::ActivityType)
    } else if norm == "quantity"@ || norm == "qty"@ {
        Some(Column::Quantity)
    } else if norm == "unitprice"@ || norm == "price"@ {
        Some(Column::UnitPrice)
    } else if norm == "currency"@ {
        Some(Column::Currency)
    } else if norm == "fee"@ {
        Some(Column::Fee)
    } else if norm == "amount"@ {
        Some(Column::Amount)
    } else if norm == "comment"@ || norm == "notes"@ || norm == "memo"@ {
        Some(Column::Comment)
    } else if norm == "subtype"@ {
        Some(Column::Subtype)
    } else if norm == "fxrate"@ {
        Some(Column::FxRate)
    } else {
        None
    }
}

/// The column that a header names: headers compare trimmed, without regard
/// to ASCII case, and with underscores ignored.
pub open spec fn header_column(header: Seq<char>) -> Option<Column> {
    column_named(normalize_name(header))
}

/// Position of the last header that names `c`.
pub open spec fn column_position(headers: Seq<String>, c: Column) -> Option<usize>
    decreases headers.len(),
{
    if headers.len() == 0 {
        None
    } else if header_column(headers.last()@) == Some(c) {
        Some((headers.len() - 1) as usize)
    } else {
        column_position(headers.drop_last(), c)
    }
}

/// Which CSV column feeds each field.
#[derive(Debug, Clone, Copy, PartialEq, Eq)]
pub struct ColumnIndex {
    pub id: Option<usize>,
    pub date: Option<usize>,
    pub symbol: Option<usize>,
    pub activity_type: Option<usize>,
    pub quantity: Option<usize>,
    pub unit_price: Option<usize>,
    pub currency: Option<usize>,
    pub fee: Option<usize>,
    pub amount: Option<usize>,
    pub comment: Option<usize>,
    pub subtype: Option<usize>,
    pub fx_rate: Option<usize>,
}

impl ColumnIndex {
    /// The position recorded for `c`.
    pub open spec fn get(self, c: Column) -> Option<usize> {
        match c {
            Column::Id => self.id,
            Column::Date => self.date,
            Column::Symbol => self.symbol,
            Column::ActivityType => self.activity_type,
            Column::Quantity => self.quantity,
            Column::UnitPrice => self.unit_price,
            Column::Currency => self.currency,
            Column::Fee => self.fee,
            Column::Amount => self.amount,
            Column::Comment => self.comment,
            Column::Subtype => self.subtype,
            Column::FxRate => self.fx_rate,
        }
    }

    /// An index that knows no column.
    pub fn empty() -> (res: ColumnIndex)
        ensures
            forall|c: Column| res.get(c) is None,
    {
        ColumnIndex {
            id: None,
            date: None,
            symbol: None,
            activity_type: None,
            quantity: None,
            unit_price: None,
            currency: None,
            fee: None,
            amount: None,
            comment: None,
            subtype: None,
            fx_rate: None,
        }
    }

    /// Records that the column at `position` has the given header: the field
    /// the header names now reads from `position`; unknown headers change
    /// nothing.
    pub fn assign(&mut self, header: &str, position: usize)
        ensures
            forall|c: Column|
                #[trigger] final(self).get(c) == if header_column(header@) == Some(c) {
                    Some(position)
                } else {
                    old(self).get(c)
                },
    {
        let norm = normalize_name_chars(&chars_of(header));
        let p = Some(position);
        if chars_eq_str(&norm, "id") {
            self.id = p;
        } else if chars_eq_str(&norm, "date") {
            self.date = p;
        } else if chars_eq_str(&norm, "symbol") {
            self.symbol = p;
        } else if chars_eq_str(&norm, "activitytype") || chars_eq_str(&norm, "type") {
            self.activity_type = p;
        } else if chars_eq_str(&norm, "quantity") || chars_eq_str(&norm, "qty") {
            self.quantity = p;
        } else if chars_eq_str(&norm, "unitprice") || chars_eq_str(&norm, "price") {
            self.unit_price = p;
        } else if chars_eq_str(&norm, "currency") {
            self.currency = p;
        } else if chars_eq_str(&norm, "fee") {
            self.fee = p;
        } else if chars_eq_str(&norm, "amount") {
            self.amount = p;
        } else if chars_eq_str(&norm, "comment") || chars_eq_str(&norm, "notes") || chars_eq_str(
            &norm,
            "memo",
        ) {
            self.comment = p;
        } else if chars_eq_str(&norm, "subtype") {
            self.subtype = p;
        } else if chars_eq_str(&norm, "fxrate") {
            self.fx_rate = p;
        }
    }
}

/// The index built from a header row: each field reads from the last
/// column whose header names it.
pub fn index_headers(headers: &[String]) -> (res: ColumnIndex)
    ensures
        forall|c: Column| #[trigger] res.get(c) == column_position(headers@, c),
{
    let mut idx = ColumnIndex::empty();
    let mut i: usize = 0;
    while i < headers.len()
        invariant
            i <= headers@.len(),
            forall|c: Column| #[trigger] idx.get(c) == column_position(headers@.subrange(0, i as int), c),
        decreases headers@.len() - i,
    {
        idx.assign(headers[i].as_str(), i);
        proof {
            let pre = headers@.subrange(0, i + 1);
            assert(pre.drop_last() =~= headers@.subrange(0, i as int));
            assert(pre.last() == headers@[i as int]);
        }
        i = i + 1;
    }
    proof {
        assert(headers@.subrange(0, headers@.len() as int) =~= headers@);
    }
    idx
}

/// The text of a cell: trailing `\r` removed, then trimmed; `None` when the
/// row has no such column or the text is empty.
pub open spec fn cell_text(row: Seq<String>, col: Option<usize>) -> Option<Seq<char>> {
    match col {
        Some(c) => if c < row.len() {
            let t = trim(strip_end_char(row[c as int]@, '\r'));
            if t.len() == 0 {
                None
            } else {
                Some(t)
            }
        } else {
            None
        },
        None => None,
    }
}

/// `cell_text` with the empty text in place of `None`.
pub open spec fn cell_or_empty(row: Seq<String>, col: Option<usize>) -> Seq<char> {
    match cell_text(row, col) {
        Some(t) => t,
        None => Seq::empty(),
    }
}

/// The text of the cell of `row` in column `col`, as `cell_text` says.
pub fn cell(row: &Vec<String>, col: Option<usize>) -> (res: Option<String>)
    ensures
        opt_view(res) == cell_text(row@, col),
{
    match col {
        Some(c) => {
            if c < row.len() {
                let raw = chars_of(row[c].as_str());
                let t = trim_chars(&strip_end_chars(&raw, '\r'));
                if t.len() == 0 {
                    None
                } else {
                    Some(string_of(&t))
                }
            } else {
                None
            }
        },
        None => None,
    }
}

/// Why a CSV could not be mapped.
#[derive(Debug, Clone, PartialEq, Eq)]
pub enum CsvMapError {
    /// No header names the `date` column.
    MissingDateColumn,
    /// No header names the `activityType` column.
    MissingActivityTypeColumn,
    /// The `date` cell of this (1-indexed) row is empty.
    EmptyDate(usize),
    /// The `activityType` cell of this (1-indexed) row is empty.
    EmptyActivityType(usize),
}

/// The message that `CsvMapError` displays.
pub open spec fn csv_map_error_message(e: CsvMapError) -> Seq<char> {
    match e {
        CsvMapError::MissingDateColumn => "CSV missing 'date' column"@,
        CsvMapError::MissingActivityTypeColumn => "CSV missing 'activityType' column"@,
        CsvMapError::EmptyDate(n) => "row "@ + decimal(n as nat) + " (1-indexed): empty 'date'"@,
        CsvMapError::EmptyActivityType(n) => "row "@ + decimal(n as nat)
            + " (1-indexed): empty 'activityType'"@,
    }
}

impl CsvMapError {
    /// The human-readable message for this error.
    pub fn to_string(&self) -> (res: String)
        ensures
            res@ == csv_map_error_message(*self),
    {
        match self {
            CsvMapError::MissingDateColumn => String::from_str("CSV missing 'date' column"),
            CsvMapError::MissingActivityTypeColumn => String::from_str(
                "CSV missing 'activityType' column",
            ),
            CsvMapError::EmptyDate(n) => {
                let mut s = String::from_str("row ");
                push_decimal(&mut s, *n as u64);
                s.append(" (1-indexed): empty 'date'");
                s
            },
            CsvMapError::EmptyActivityType(n) => {
                let mut s = String::from_str("row ");
                push_decimal(&mut s, *n as u64);
                s.append(" (1-indexed): empty 'activityType'");
                s
            },
        }
    }
}

/// The error of the row at 1-indexed position `n`, if it lacks a date or
/// an activity type (the date is looked at first).
pub open spec fn row_error(row: Seq<String>, idx: ColumnIndex, n: usize) -> Option<CsvMapError> {
    if cell_text(row, idx.get(Column::Date)) is None {
        Some(CsvMapError::EmptyDate(n))
    } else if cell_text(row, idx.get(Column::ActivityType)) is None {
        Some(CsvMapError::EmptyActivityType(n))
    } else {
        None
    }
}

/// The error of the first row that has one.
pub open spec fn first_row_error(rows: Seq<Vec<String>>, idx: ColumnIndex) -> Option<CsvMapError>
    decreases rows.len(),
{
    if rows.len() == 0 {
        None
    } else {
        match first_row_error(rows.drop_last(), idx) {
            Some(e) => Some(e),
            None => row_error(rows.last()@, idx, rows.len() as usize),
        }
    }
}

/// Once a prefix of the rows has an error, all the rows have that error.
pub proof fn lemma_first_row_error_prefix(rows: Seq<Vec<String>>, idx: ColumnIndex, i: int)
    requires
        0 <= i <= rows.len(),
        first_row_error(rows.subrange(0, i), idx) is Some,
    ensures
        first_row_error(rows, idx) == first_row_error(rows.subrange(0, i), idx),
    decreases rows.len(),
{
    if i < rows.len() {
        assert(rows.drop_last().subrange(0, i) =~= rows.subrange(0, i));
        lemma_first_row_error_prefix(rows.drop_last(), idx, i);
    } else {
        assert(rows.subrange(0, i) =~= rows);
    }
}

/// Why mapping `rows` under `headers` fails, if it does: a missing `date`
/// column, then a missing `activityType` column, then the first row with an
/// empty date or activity type.
pub open spec fn csv_map_error(headers: Seq<String>, rows: Seq<Vec<String>>) -> Option<
    CsvMapError,
> {
    if column_position(headers, Column::Date) is None {
        Some(CsvMapError::MissingDateColumn)
    } else if column_position(headers, Column::ActivityType) is None {
        Some(CsvMapError::MissingActivityTypeColumn)
    } else {
        first_row_error(rows, index_of(headers))
    }
}

/// The column index of a header row.
pub open spec fn index_of(headers: Seq<String>) -> ColumnIndex {
    ColumnIndex {
        id: column_position(headers, Column::Id),
        date: column_position(headers, Column::Date),
        symbol: column_position(headers, Column::Symbol),
        activity_type: column_position(headers, Column::ActivityType),
        quantity: column_position(headers, Column::Quantity),
        unit_price: column_position(headers, Column::UnitPrice),
        currency: column_position(headers, Column::Currency),
        fee: column_position(headers, Column::Fee),
        amount: column_position(headers, Column::Amount),
        comment: column_position(headers, Column::Comment),
        subtype: column_position(headers, Column::Subtype),
        fx_rate: column_position(headers, Column::FxRate),
    }
}

/// Whether `a` is the activity that `row` maps to under `idx`, for the
/// account `account_id`.
pub open spec fn row_maps_to(a: ActivityImport, row: Seq<String>, idx: ColumnIndex, account_id: Seq<
    char,
>) -> bool {
    &&& opt_view(a.id) == cell_text(row, idx.get(Column::Id))
    &&& Some(a.date@) == cell_text(row, idx.get(Column::Date))
    &&& a.symbol@ == cell_or_empty(row, idx.get(Column::Symbol))
    &&& Some(a.activity_type@) == cell_text(row, idx.get(Column::ActivityType))
    &&& opt_view(a.quantity) == cell_text(row, idx.get(Column::Quantity))
    &&& opt_view(a.unit_price) == cell_text(row, idx.get(Column::UnitPrice))
    &&& a.currency@ == cell_or_empty(row, idx.get(Column::Currency))
    &&& opt_view(a.fee) == cell_text(row, idx.get(Column::Fee))
    &&& opt_view(a.amount) == cell_text(row, idx.get(Column::Amount))
    &&& opt_view(a.comment) == cell_text(row, idx.get(Column::Comment))
    &&& opt_view(a.account_id) == Some(account_id)
    &&& opt_view(a.subtype) == cell_text(row, idx.get(Column::Subtype))
    &&& opt_view(a.fx_rate) == cell_text(row, idx.get(Column::FxRate))
    &&& !a.is_draft
    &&& a.is_valid
    &&& a.errors is None
    &&& a.warnings is None
    &&& a.duplicate_of_id is None
}

/// Maps one row, numbered `n` (1-indexed), that has a date and an
/// activity type.
fn map_row(row: &Vec<String>, idx: &ColumnIndex, account_id: &str, n: usize) -> (res: Result<
    ActivityImport,
    CsvMapError,
>)
    ensures
        match row_error(row@, *idx, n) {
            Some(e) => res == Err::<ActivityImport, CsvMapError>(e),
            None => res matches Ok(a) && row_maps_to(a, row@, *idx, account_id@),
        },
{
    let date = match cell(row, idx.date) {
        Some(d) => d,
        None => {
            return Err(CsvMapError::EmptyDate(n));
        },
    };
    let activity_type = match cell(row, idx.activity_type) {
        Some(t) => t,
        None => {
            return Err(CsvMapError::EmptyActivityType(n));
        },
    };
    let symbol = match cell(row, idx.symbol) {
        Some(s) => s,
        None => String::new(),
    };
    let currency = match cell(row, idx.currency) {
        Some(s) => s,
        None => String::new(),
    };
    Ok(
        ActivityImport {
            id: cell(row, idx.id),
            date,
            symbol,
            activity_type,
            quantity: cell(row, idx.quantity),
            unit_price: cell(row, idx.unit_price),
            currency,
            fee: cell(row, idx.fee),
            amount: cell(row, idx.amount),
            comment: cell(row, idx.comment),
            account_id: Some(String::from_str(account_id)),
            subtype: cell(row, idx.subtype),
            fx_rate: cell(row, idx.fx_rate),
            is_draft: false,
            is_valid: true,
            errors: None,
            warnings: None,
            duplicate_of_id: None,
        },
    )
}

/// Maps a parsed CSV (the server's header row and rows) onto
/// `ActivityImport` rows of the account `account_id`.
///
/// Headers are matched trimmed, without regard to ASCII case and with
/// underscores ignored: `date` and `activityType` (or `type`) are required;
/// `symbol`, `quantity` (`qty`), `unitPrice` (`price`), `currency`, `fee`,
/// `amount`, `comment` (`notes`, `memo`), `subtype`, `fxRate` and `id` are
/// optional; other columns are ignored. A cell loses trailing `\r` and
/// surrounding white space; an empty cell counts as absent.
pub fn map_csv_to_activities(headers: &[String], rows: &[Vec<String>], account_id: &str) -> (res:
    Result<Vec<ActivityImport>, CsvMapError>)
    ensures
        match csv_map_error(headers@, rows@) {
            Some(e) => res == Err::<Vec<ActivityImport>, CsvMapError>(e),
            None => res matches Ok(v) && v@.len() == rows@.len() && forall|i: int|
                0 <= i < rows@.len() ==> #[trigger] row_maps_to(
                    v@[i],
                    rows@[i]@,
                    index_of(headers@),
                    account_id@,
                ),
        },
{
    let idx = index_headers(headers);
    proof {
        assert(idx == index_of(headers@)) by {
            assert(idx.get(Column::Id) == column_position(headers@, Column::Id));
            assert(idx.get(Column::Date) == column_position(headers@, Column::Date));
            assert(idx.get(Column::Symbol) == column_position(headers@, Column::Symbol));
            assert(idx.get(Column::ActivityType) == column_position(headers@, Column::ActivityType));
            assert(idx.get(Column::Quantity) == column_position(headers@, Column::Quantity));
            assert(idx.get(Column::UnitPrice) == column_position(headers@, Column::UnitPrice));
            assert(idx.get(Column::Currency) == column_position(headers@, Column::Currency));
            assert(idx.get(Column::Fee) == column_position(headers@, Column::Fee));
            assert(idx.get(Column::Amount) == column_position(headers@, Column::Amount));
            assert(idx.get(Column::Comment) == column_position(headers@, Column::Comment));
            assert(idx.get(Column::Subtype) == column_position(headers@, Column::Subtype));
            assert(idx.get(Column::FxRate) == column_position(headers@, Column::FxRate));
        }
    }
    if idx.date.is_none() {
        return Err(CsvMapError::MissingDateColumn);
    }
    if idx.activity_type.is_none() {
        return Err(CsvMapError::MissingActivityTypeColumn);
    }
    let mut out: Vec<ActivityImport> = Vec::new();
    let mut n: usize = 0;
    while n < rows.len()
        invariant
            n <= rows@.len(),
            idx == index_of(headers@),
            idx.date is Some,
            idx.activity_type is Some,
            first_row_error(rows@.subrange(0, n as int), idx) is None,
            out@.len() == n,
            forall|i: int|
                0 <= i < n ==> #[trigger] row_maps_to(
                    out@[i],
                    rows@[i]@,
                    idx,
                    account_id@,
                ),
        decreases rows@.len() - n,
    {
        let ghost pre = rows@.subrange(0, n + 1);
        proof {
            assert(pre.drop_last() =~= rows@.subrange(0, n as int));
            assert(pre.last() == rows@[n as int]);
        }
        match map_row(&rows[n], &idx, account_id, n + 1) {
            Ok(a) => {
                out.push(a);
            },
            Err(e) => {
                proof {
                    lemma_first_row_error_prefix(rows@, idx, n + 1);
                }
                return Err(e);
            },
        }
        n = n + 1;
    }
    proof {
        assert(rows@.subrange(0, rows@.len() as int) =~= rows@);
    }
    Ok(out)
}


/// Headers are matched without regard to ASCII case: two headers that are
/// equal once lower-cased name the same column.
pub proof fn lemma_header_case_ignored(h1: Seq<char>, h2: Seq<char>)
    requires
        ascii_lower(h1) == ascii_lower(h2),
    ensures
        header_column(h1) == header_column(h2),
{
    lemma_trim_lower_commute(h1);
    lemma_trim_lower_commute(h2);
}

/// Headers are matched with underscores ignored (`activity_type` and
/// `activityType` alike): two headers without surrounding white space that
/// are equal once lower-cased and stripped of underscores name the same
/// column.
pub proof fn lemma_header_underscores_ignored(h1: Seq<char>, h2: Seq<char>)
    requires
        trim(h1) == h1,
        trim(h2) == h2,
        remove_char(ascii_lower(h1), '_') == remove_char(ascii_lower(h2), '_'),
    ensures
        header_column(h1) == header_column(h2),
{
}

/// A header that names no known column leaves every field's column as it
/// was.
pub proof fn lemma_unknown_header_ignored(headers: Seq<String>, h: String, c: Column)
    requires
        header_column(h@) is None,
    ensures
        column_position(headers.push(h), c) == column_position(headers, c),
{
    assert(headers.push(h).drop_last() =~= headers);
}

/// Every header name that the import documents is recognized, and names
/// exactly its column: `id`, `date`, `symbol`, `activityType` or `type`,
/// `quantity` or `qty`, `unitPrice` or `price`, `currency`, `fee`,
/// `amount`, `comment`, `notes` or `memo`, `subtype`, `fxRate` (compared
/// lower-cased, without underscores); no other name names a column.
pub proof fn lemma_documented_headers_recognized(n: Seq<char>)
    ensures
        (column_named(n) == Some(Column::Id)) <==> n == "id"@,
        (column_named(n) == Some(Column::Date)) <==> n == "date"@,
        (column_named(n) == Some(Column::Symbol)) <==> n == "symbol"@,
        (column_named(n) == Some(Column::ActivityType)) <==> (n == "activitytype"@ || n
            == "type"@),
        (column_named(n) == Some(Column::Quantity)) <==> (n == "quantity"@ || n == "qty"@),
        (column_named(n) == Some(Column::UnitPrice)) <==> (n == "unitprice"@ || n == "price"@),
        (column_named(n) == Some(Column::Currency)) <==> n == "currency"@,
        (column_named(n) == Some(Column::Fee)) <==> n == "fee"@,
        (column_named(n) == Some(Column::Amount)) <==> n == "amount"@,
        (column_named(n) == Some(Column::Comment)) <==> (n == "comment"@ || n == "notes"@ || n
            == "memo"@),
        (column_named(n) == Some(Column::Subtype)) <==> n == "subtype"@,
        (column_named(n) == Some(Column::FxRate)) <==> n == "fxrate"@,
{
    reveal_strlit("id");
    reveal_strlit("date");
    reveal_strlit("symbol");
    reveal_strlit("activitytype");
    reveal_strlit("type");
    reveal_strlit("quantity");
    reveal_strlit("qty");
    reveal_strlit("unitprice");
    reveal_strlit("price");
    reveal_strlit("currency");
    reveal_strlit("fee");
    reveal_strlit("amount");
    reveal_strlit("comment");
    reveal_strlit("notes");
    reveal_strlit("memo");
    reveal_strlit("subtype");
    reveal_strlit("fxrate");
    assert("id"@.len() == 2 && "id"@[0] == 'i');
    assert("date"@.len() == 4 && "date"@[0] == 'd');
    assert("symbol"@.len() == 6 && "symbol"@[0] == 's');
    assert("activitytype"@.len() == 12 && "activitytype"@[0] == 'a');
    assert("type"@.len() == 4 && "type"@[0] == 't');
    assert("quantity"@.len() == 8 && "quantity"@[0] == 'q');
    assert("qty"@.len() == 3 && "qty"@[0] == 'q');
    assert("unitprice"@.len() == 9 && "unitprice"@[0] == 'u');
    assert("price"@.len() == 5 && "price"@[0] == 'p');
    assert("currency"@.len() == 8 && "currency"@[0] == 'c');
    assert("fee"@.len() == 3 && "fee"@[0] == 'f');
    assert("amount"@.len() == 6 && "amount"@[0] == 'a');
    assert("comment"@.len() == 7 && "comment"@[0] == 'c');
    assert("notes"@.len() == 5 && "notes"@[0] == 'n');
    assert("memo"@.len() == 4 && "memo"@[0] == 'm');
    assert("subtype"@.len() == 7 && "subtype"@[0] == 's');
    assert("fxrate"@.len() == 6 && "fxrate"@[0] == 'f');
    if n == "id"@ {
        assert(n.len() == 2 && n[0] == 'i');
    }
    if n == "date"@ {
        assert(n.len() == 4 && n[0] == 'd');
    }
    if n == "symbol"@ {
        assert(n.len() == 6 && n[0] == 's');
    }
    if n == "activitytype"@ {
        assert(n.len() == 12 && n[0] == 'a');
    }
    if n == "type"@ {
        assert(n.len() == 4 && n[0] == 't');
    }
    if n == "quantity"@ {
        assert(n.len() == 8 && n[0] == 'q');
    }
    if n == "qty"@ {
        assert(n.len() == 3 && n[0] == 'q');
    }
    if n == "unitprice"@ {
        assert(n.len() == 9 && n[0] == 'u');
    }
    if n == "price"@ {
        assert(n.len() == 5 && n[0] == 'p');
    }
    if n == "currency"@ {
        assert(n.len() == 8 && n[0] == 'c');
    }
    if n == "fee"@ {
        assert(n.len() == 3 && n[0] == 'f');
    }
    if n == "amount"@ {
        assert(n.len() == 6 && n[0] == 'a');
    }
    if n == "comment"@ {
        assert(n.len() == 7 && n[0] == 'c');
    }
    if n == "notes"@ {
        assert(n.len() == 5 && n[0] == 'n');
    }
    if n == "memo"@ {
        assert(n.len() == 4 && n[0] == 'm');
    }
    if n == "subtype"@ {
        assert(n.len() == 7 && n[0] == 's');
    }
    if n == "fxrate"@ {
        assert(n.len() == 6 && n[0] == 'f');
    }
}

/// A header in any case, with underscores anywhere and white space around
/// it, names the column its normalized text names.
pub proof fn lemma_header_normalized(h: Seq<char>)
    ensures
        header_column(h) == column_named(remove_char(ascii_lower(trim(h)), '_')),
{
}

} // verus!
