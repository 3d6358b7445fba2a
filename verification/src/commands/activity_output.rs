//! The text that the `activities` subcommands print.

use vstd::prelude::*;
use vstd::string::*;

use crate::models::activity::{ActivityImport, ImportParseResponse};
use crate::text::{
    chars_of, decimal, join, join_strings, pad_left, pad_right, push_decimal, push_padded_left,
    push_padded_right, push_signed_decimal, signed_decimal, split_chars, split_on, string_of,
    take_chars, views,
};

verus! {

/// The lines that summarize a server-side CSV parse: counts, headers,
/// errors, and the first three rows.
pub open spec fn parse_summary(resp: ImportParseResponse) -> Seq<Seq<char>> {
    let head = seq![
        "rows detected : "@ + decimal(resp.row_count as nat),
        "headers       : "@ + join(views(resp.headers@), ", "@),
        "errors        : "@ + decimal(resp.errors@.len()),
    ];
    let errs = resp.errors@.map_values(|e: String| "  - "@ + e@);
    let n = if resp.rows@.len() < 3 {
        resp.rows@.len()
    } else {
        3
    };
    let preview = if resp.rows@.len() > 0 {
        seq!["preview (first 3 rows):"@] + resp.rows@.subrange(0, n as int).map_values(
            |r: Vec<String>| "  "@ + join(views(r@), " | "@),
        )
    } else {
        Seq::empty()
    };
    head + errs + preview
}

/// The lines that summarize a server-side CSV parse.
pub fn parse_summary_lines(resp: &ImportParseResponse) -> (res: Vec<String>)
    ensures
        views(res@) == parse_summary(*resp),
{
    let mut out: Vec<String> = Vec::new();
    let mut l1 = String::from_str("rows detected : ");
    push_decimal(&mut l1, resp.row_count);
    out.push(l1);
    let mut l2 = String::from_str("headers       : ");
    let hs = join_strings(&resp.headers, ", ");
    l2.append(hs.as_str());
    out.push(l2);
    let mut l3 = String::from_str("errors        : ");
    push_decimal(&mut l3, resp.errors.len() as u64);
    out.push(l3);
    let ghost head = seq![
        "rows detected : "@ + decimal(resp.row_count as nat),
        "headers       : "@ + join(views(resp.headers@), ", "@),
        "errors        : "@ + decimal(resp.errors@.len()),
    ];
    proof {
        assert(views(out@) =~= head);
    }
    let ghost errs = resp.errors@.map_values(|e: String| "  - "@ + e@);
    let mut i: usize = 0;
    while i < resp.errors.len()
        invariant
            i <= resp.errors@.len(),
            views(out@) == head + errs.subrange(0, i as int),
            errs == resp.errors@.map_values(|e: String| "  - "@ + e@),
        decreases resp.errors@.len() - i,
    {
        let mut l = String::from_str("  - ");
        l.append(resp.errors[i].as_str());
        proof {
            assert(views(out@.push(l)) =~= views(out@).push(l@));
            assert(head + errs.subrange(0, i + 1) =~= (head + errs.subrange(0, i as int)).push(
                errs[i as int],
            ));
        }
        out.push(l);
        i = i + 1;
    }
    proof {
        assert(errs.subrange(0, errs.len() as int) =~= errs);
    }
    let ghost before = views(out@);
    if resp.rows.len() > 0 {
        let n: usize = if resp.rows.len() < 3 {
            resp.rows.len()
        } else {
            3
        };
        let ghost shown = resp.rows@.subrange(0, n as int).map_values(
            |r: Vec<String>| "  "@ + join(views(r@), " | "@),
        );
        out.push(String::from_str("preview (first 3 rows):"));
        let mut k: usize = 0;
        while k < n
            invariant
                k <= n <= resp.rows@.len(),
                n <= 3,
                shown == resp.rows@.subrange(0, n as int).map_values(
                    |r: Vec<String>| "  "@ + join(views(r@), " | "@),
                ),
                views(out@) == before + seq!["preview (first 3 rows):"@] + shown.subrange(
                    0,
                    k as int,
                ),
            decreases n - k,
        {
            let mut l = String::from_str("  ");
            let row = join_strings(&resp.rows[k], " | ");
            l.append(row.as_str());
            proof {
                assert(views(out@.push(l)) =~= views(out@).push(l@));
                assert(shown[k as int] == l@);
                assert(before + seq!["preview (first 3 rows):"@] + shown.subrange(0, k + 1) =~= (
                before + seq!["preview (first 3 rows):"@] + shown.subrange(0, k as int)).push(
                    shown[k as int],
                ));
            }
            out.push(l);
            k = k + 1;
        }
        proof {
            assert(shown.subrange(0, n as int) =~= shown);
            assert(before + seq!["preview (first 3 rows):"@] + shown =~= before + (seq![
                "preview (first 3 rows):"@,
            ] + shown));
        }
    } else {
        proof {
            assert(before =~= before + Seq::<Seq<char>>::empty());
        }
    }
    out
}


/// How many checked rows the server found valid.
pub open spec fn count_valid(rows: Seq<ActivityImport>) -> nat {
    rows.filter(|r: ActivityImport| r.is_valid).len()
}

/// How many checked rows carry errors.
pub open spec fn count_with_errors(rows: Seq<ActivityImport>) -> nat {
    rows.filter(|r: ActivityImport| r.errors is Some).len()
}

/// How many checked rows carry warnings.
pub open spec fn count_with_warnings(rows: Seq<ActivityImport>) -> nat {
    rows.filter(|r: ActivityImport| r.warnings is Some).len()
}

/// How many checked rows duplicate an existing activity.
pub open spec fn count_duplicates(rows: Seq<ActivityImport>) -> nat {
    rows.filter(|r: ActivityImport| r.duplicate_of_id is Some).len()
}

/// `(<date> <type> <amount>)` for a checked row, an absent amount as empty.
pub open spec fn row_label(r: ActivityImport) -> Seq<char> {
    " ("@ + r.date@ + " "@ + r.activity_type@ + " "@ + match r.amount {
        Some(a) => a@,
        None => Seq::empty(),
    } + ")"@
}

/// The detail lines of the checked row numbered `n` (1-indexed): one for
/// its errors, one for the activity it duplicates, each when present.
pub open spec fn check_row_lines(r: ActivityImport, n: nat) -> Seq<Seq<char>> {
    (match r.errors {
        Some(e) => seq!["  row "@ + decimal(n) + row_label(r) + ": errors = "@ + e@],
        None => Seq::empty(),
    }) + (match r.duplicate_of_id {
        Some(d) => seq!["  row "@ + decimal(n) + row_label(r) + ": duplicate of "@ + d@],
        None => Seq::empty(),
    })
}

/// The detail lines of all checked rows, in order.
pub open spec fn check_details(rows: Seq<ActivityImport>) -> Seq<Seq<char>>
    decreases rows.len(),
{
    if rows.len() == 0 {
        Seq::empty()
    } else {
        check_details(rows.drop_last()) + check_row_lines(rows.last(), rows.len())
    }
}

/// The lines that summarize the server's check of mapped rows: how many
/// are valid, how many carry errors, warnings or duplicates, then the
/// detail lines.
pub open spec fn check_summary(rows: Seq<ActivityImport>) -> Seq<Seq<char>> {
    seq![
        "check: "@ + decimal(count_valid(rows)) + "/"@ + decimal(rows.len()) + " valid"@,
        "  errors     : "@ + decimal(count_with_errors(rows)),
        "  warnings   : "@ + decimal(count_with_warnings(rows)),
        "  duplicates : "@ + decimal(count_duplicates(rows)),
    ] + check_details(rows)
}

/// Counts of valid rows and of rows with errors, warnings and duplicates.
fn check_counts(rows: &Vec<ActivityImport>) -> (res: (u64, u64, u64, u64))
    ensures
        res.0 == count_valid(rows@),
        res.1 == count_with_errors(rows@),
        res.2 == count_with_warnings(rows@),
        res.3 == count_duplicates(rows@),
{
    let mut valid: u64 = 0;
    let mut errors: u64 = 0;
    let mut warnings: u64 = 0;
    let mut dups: u64 = 0;
    let mut i: usize = 0;
    while i < rows.len()
        invariant
            i <= rows@.len(),
            valid == count_valid(rows@.subrange(0, i as int)),
            errors == count_with_errors(rows@.subrange(0, i as int)),
            warnings == count_with_warnings(rows@.subrange(0, i as int)),
            dups == count_duplicates(rows@.subrange(0, i as int)),
            valid <= i,
            errors <= i,
            warnings <= i,
            dups <= i,
        decreases rows@.len() - i,
    {
        proof {
            let pre = rows@.subrange(0, i + 1);
            assert(pre.drop_last() =~= rows@.subrange(0, i as int));
            assert(pre.last() == rows@[i as int]);
            reveal(Seq::filter);
        }
        let r = &rows[i];
        if r.is_valid {
            valid = valid + 1;
        }
        if r.errors.is_some() {
            errors = errors + 1;
        }
        if r.warnings.is_some() {
            warnings = warnings + 1;
        }
        if r.duplicate_of_id.is_some() {
            dups = dups + 1;
        }
        i = i + 1;
    }
    proof {
        assert(rows@.subrange(0, rows@.len() as int) =~= rows@);
    }
    (valid, errors, warnings, dups)
}

/// Appends ` (<date> <type> <amount>)` for a checked row.
fn push_row_label(s: &mut String, r: &ActivityImport)
    ensures
        final(s)@ == old(s)@ + row_label(*r),
{
    s.append(" (");
    s.append(r.date.as_str());
    s.append(" ");
    s.append(r.activity_type.as_str());
    s.append(" ");
    match &r.amount {
        Some(a) => {
            s.append(a.as_str());
        },
        None => {},
    }
    s.append(")");
    proof {
        assert(final(s)@ =~= old(s)@ + row_label(*r));
    }
}

/// The lines that summarize the server's check of mapped rows.
pub fn check_summary_lines(rows: &Vec<ActivityImport>) -> (res: Vec<String>)
    requires
        rows@.len() < u64::MAX,
    ensures
        views(res@) == check_summary(rows@),
{
    let (valid, errors, warnings, dups) = check_counts(rows);
    let mut out: Vec<String> = Vec::new();
    let mut l1 = String::from_str("check: ");
    push_decimal(&mut l1, valid);
    l1.append("/");
    push_decimal(&mut l1, rows.len() as u64);
    l1.append(" valid");
    out.push(l1);
    let mut l2 = String::from_str("  errors     : ");
    push_decimal(&mut l2, errors);
    out.push(l2);
    let mut l3 = String::from_str("  warnings   : ");
    push_decimal(&mut l3, warnings);
    out.push(l3);
    let mut l4 = String::from_str("  duplicates : ");
    push_decimal(&mut l4, dups);
    out.push(l4);
    let ghost head = seq![
        "check: "@ + decimal(count_valid(rows@)) + "/"@ + decimal(rows@.len()) + " valid"@,
        "  errors     : "@ + decimal(count_with_errors(rows@)),
        "  warnings   : "@ + decimal(count_with_warnings(rows@)),
        "  duplicates : "@ + decimal(count_duplicates(rows@)),
    ];
    proof {
        assert(views(out@) =~= head);
        assert(rows@.subrange(0, 0) =~= Seq::<ActivityImport>::empty());
        assert(head =~= head + check_details(rows@.subrange(0, 0)));
    }
    let mut i: usize = 0;
    while i < rows.len()
        invariant
            i <= rows@.len() < u64::MAX,
            views(out@) == head + check_details(rows@.subrange(0, i as int)),
        decreases rows@.len() - i,
    {
        let r = &rows[i];
        let n: u64 = (i as u64) + 1;
        let ghost mid = views(out@);
        match &r.errors {
            Some(e) => {
                let mut l = String::from_str("  row ");
                push_decimal(&mut l, n);
                push_row_label(&mut l, r);
                l.append(": errors = ");
                l.append(e.as_str());
                proof {
                    assert(views(out@.push(l)) =~= views(out@).push(l@));
                }
                out.push(l);
            },
            None => {},
        }
        let ghost mid2 = views(out@);
        match &r.duplicate_of_id {
            Some(d) => {
                let mut l = String::from_str("  row ");
                push_decimal(&mut l, n);
                push_row_label(&mut l, r);
                l.append(": duplicate of ");
                l.append(d.as_str());
                proof {
                    assert(views(out@.push(l)) =~= views(out@).push(l@));
                }
                out.push(l);
            },
            None => {},
        }
        proof {
            let pre = rows@.subrange(0, i + 1);
            assert(pre.drop_last() =~= rows@.subrange(0, i as int));
            assert(pre.last() == rows@[i as int]);
            assert(views(out@) =~= mid + check_row_lines(rows@[i as int], (i + 1) as nat));
            assert(head + check_details(pre) =~= head + check_details(rows@.subrange(0, i as int))
                + check_row_lines(rows@[i as int], (i + 1) as nat));
        }
        i = i + 1;
    }
    proof {
        assert(rows@.subrange(0, rows@.len() as int) =~= rows@);
    }
    out
}


/// The line that summarizes an import: the server's counts when it
/// reported all four, else the number of rows sent.
pub open spec fn import_summary(
    total: Option<u64>,
    imported: Option<u64>,
    skipped: Option<u64>,
    duplicates: Option<u64>,
    sent: usize,
) -> Seq<char> {
    match (total, imported, skipped, duplicates) {
        (Some(t), Some(i), Some(s), Some(d)) => "import: total="@ + decimal(t as nat)
            + " imported="@ + decimal(i as nat) + " skipped="@ + decimal(s as nat)
            + " duplicates="@ + decimal(d as nat),
        _ => "import: ok ("@ + decimal(sent as nat) + " rows sent)"@,
    }
}

/// The line that summarizes an import.
pub fn import_summary_line(
    total: Option<u64>,
    imported: Option<u64>,
    skipped: Option<u64>,
    duplicates: Option<u64>,
    sent: usize,
) -> (res: String)
    ensures
        res@ == import_summary(total, imported, skipped, duplicates, sent),
{
    match (total, imported, skipped, duplicates) {
        (Some(t), Some(i), Some(s), Some(d)) => {
            let mut l = String::from_str("import: total=");
            push_decimal(&mut l, t);
            l.append(" imported=");
            push_decimal(&mut l, i);
            l.append(" skipped=");
            push_decimal(&mut l, s);
            l.append(" duplicates=");
            push_decimal(&mut l, d);
            l
        },
        _ => {
            let mut l = String::from_str("import: ok (");
            push_decimal(&mut l, sent as u64);
            l.append(" rows sent)");
            l
        },
    }
}

/// An optional count, absent as zero.
pub open spec fn count_or_zero(n: Option<usize>) -> nat {
    match n {
        Some(k) => k as nat,
        None => 0,
    }
}

/// The lines that summarize a bulk mutation: the number of created,
/// updated and deleted records and of errors, then the first ten errors.
pub open spec fn bulk_summary(
    created: Option<usize>,
    updated: Option<usize>,
    deleted: Option<usize>,
    errors: Option<Seq<String>>,
) -> Seq<Seq<char>> {
    let n_errors: nat = match errors {
        Some(e) => e.len(),
        None => 0,
    };
    let shown: Seq<String> = match errors {
        Some(e) => if e.len() <= 10 {
            e
        } else {
            e.subrange(0, 10)
        },
        None => Seq::empty(),
    };
    seq![
        "bulk: created="@ + decimal(count_or_zero(created)) + " updated="@ + decimal(
            count_or_zero(updated),
        ) + " deleted="@ + decimal(count_or_zero(deleted)) + " errors="@ + decimal(n_errors),
    ] + shown.map_values(|e: String| "  - "@ + e@)
}

/// Appends an optional count, absent as zero.
fn push_count(s: &mut String, n: Option<usize>)
    ensures
        final(s)@ == old(s)@ + decimal(count_or_zero(n)),
{
    match n {
        Some(k) => push_decimal(s, k as u64),
        None => push_decimal(s, 0),
    }
}

/// The lines that summarize a bulk mutation; `errors` are the texts of the
/// errors the server reported, when it reported a list of them.
pub fn bulk_summary_lines(
    created: Option<usize>,
    updated: Option<usize>,
    deleted: Option<usize>,
    errors: Option<Vec<String>>,
) -> (res: Vec<String>)
    ensures
        views(res@) == bulk_summary(
            created,
            updated,
            deleted,
            match errors {
                Some(e) => Some(e@),
                None => None,
            },
        ),
{
    let mut l = String::from_str("bulk: created=");
    push_count(&mut l, created);
    l.append(" updated=");
    push_count(&mut l, updated);
    l.append(" deleted=");
    push_count(&mut l, deleted);
    l.append(" errors=");
    let n_errors: usize = match &errors {
        Some(e) => e.len(),
        None => 0,
    };
    push_decimal(&mut l, n_errors as u64);
    let mut out: Vec<String> = Vec::new();
    out.push(l);
    let ghost head = views(out@);
    match &errors {
        Some(e) => {
            let n: usize = if e.len() <= 10 {
                e.len()
            } else {
                10
            };
            let ghost shown = e@.subrange(0, n as int).map_values(|x: String| "  - "@ + x@);
            let mut i: usize = 0;
            while i < n
                invariant
                    i <= n <= e@.len(),
                    shown == e@.subrange(0, n as int).map_values(|x: String| "  - "@ + x@),
                    views(out@) == head + shown.subrange(0, i as int),
                decreases n - i,
            {
                let mut m = String::from_str("  - ");
                m.append(e[i].as_str());
                proof {
                    assert(views(out@.push(m)) =~= views(out@).push(m@));
                    assert(head + shown.subrange(0, i + 1) =~= (head + shown.subrange(0, i as int)).push(
                        shown[i as int],
                    ));
                }
                out.push(m);
                i = i + 1;
            }
            proof {
                assert(shown.subrange(0, n as int) =~= shown);
                if e@.len() <= 10 {
                    assert(e@.subrange(0, n as int) =~= e@);
                }
            }
        },
        None => {
            proof {
                assert(head =~= head + Seq::<String>::empty().map_values(|x: String| "  - "@ + x@));
            }
        },
    }
    out
}


/// The fields of one activity of a search page that the listing shows,
/// each present only when the server gave it as text.
#[derive(Debug, Clone, PartialEq, Eq)]
pub struct SearchRow {
    pub date: Option<String>,
    pub activity_type: Option<String>,
    /// The amount, as text (a number already rendered in decimal).
    pub amount: Option<String>,
    pub currency: Option<String>,
    pub comment: Option<String>,
}

/// `o`'s text, or `default` when absent.
pub open spec fn text_or(o: Option<String>, default: Seq<char>) -> Seq<char> {
    match o {
        Some(s) => s@,
        None => default,
    }
}

/// The date column: the part of the date before the first `T`.
pub open spec fn date_column(date: Option<String>) -> Seq<char> {
    match date {
        Some(d) => split_on(d@, 'T')[0],
        None => Seq::empty(),
    }
}

/// The comment column: at most 60 characters, longer ones cut to 60 and
/// marked with an ellipsis.
pub open spec fn comment_column(comment: Option<String>) -> Seq<char> {
    let c = text_or(comment, Seq::empty());
    if c.len() > 60 {
        c.subrange(0, 60) + "\u{2026}"@
    } else {
        c
    }
}

/// The listing line of one activity.
pub open spec fn search_line(r: SearchRow) -> Seq<char> {
    pad_right(date_column(r.date), 10) + "  "@ + pad_right(text_or(r.activity_type, "?"@), 12)
        + "  "@ + pad_left(text_or(r.amount, Seq::empty()), 14) + "  "@ + pad_right(
        text_or(r.currency, Seq::empty()),
        6,
    ) + "  "@ + comment_column(r.comment)
}

/// The heading of the activity listing.
pub open spec fn search_heading() -> Seq<char> {
    pad_right("DATE"@, 10) + "  "@ + pad_right("TYPE"@, 12) + "  "@ + pad_left("AMOUNT"@, 14)
        + "  "@ + pad_right("CCY"@, 6) + "  COMMENT"@
}

/// The lines that list a search page: the row count and the server's total
/// (`-1` when it gave none), then, if there are rows, a heading and a line
/// per row.
pub open spec fn search_listing(total: Option<i64>, rows: Seq<SearchRow>) -> Seq<Seq<char>> {
    let t: int = match total {
        Some(n) => n as int,
        None => -1,
    };
    let first = decimal(rows.len()) + " rows (total "@ + signed_decimal(t) + ")"@;
    if rows.len() == 0 {
        seq![first]
    } else {
        seq![first, search_heading()] + rows.map_values(|r: SearchRow| search_line(r))
    }
}

/// The line of one activity of a search page.
pub fn search_line_text(r: &SearchRow) -> (res: String)
    ensures
        res@ == search_line(*r),
{
    let date = match &r.date {
        Some(d) => {
            let parts = split_chars(&chars_of(d.as_str()), 'T');
            string_of(&parts[0])
        },
        None => String::new(),
    };
    let atype = match &r.activity_type {
        Some(t) => t.clone(),
        None => String::from_str("?"),
    };
    let amount = match &r.amount {
        Some(a) => a.clone(),
        None => String::new(),
    };
    let ccy = match &r.currency {
        Some(c) => c.clone(),
        None => String::new(),
    };
    let comment_text = match &r.comment {
        Some(c) => c.clone(),
        None => String::new(),
    };
    let comment = if comment_text.unicode_len() > 60 {
        let mut c = take_chars(comment_text.as_str(), 60);
        c.append("\u{2026}");
        c
    } else {
        comment_text
    };
    let mut l = String::new();
    push_padded_right(&mut l, date.as_str(), 10);
    l.append("  ");
    push_padded_right(&mut l, atype.as_str(), 12);
    l.append("  ");
    push_padded_left(&mut l, amount.as_str(), 14);
    l.append("  ");
    push_padded_right(&mut l, ccy.as_str(), 6);
    l.append("  ");
    l.append(comment.as_str());
    proof {
        assert(l@ =~= search_line(*r));
    }
    l
}

/// The lines that list a search page.
pub fn search_listing_lines(total: Option<i64>, rows: &Vec<SearchRow>) -> (res: Vec<String>)
    ensures
        views(res@) == search_listing(total, rows@),
{
    let t: i64 = match total {
        Some(n) => n,
        None => -1,
    };
    let mut first = String::new();
    push_decimal(&mut first, rows.len() as u64);
    first.append(" rows (total ");
    push_signed_decimal(&mut first, t);
    first.append(")");
    let mut out: Vec<String> = Vec::new();
    out.push(first);
    if rows.len() == 0 {
        return out;
    }
    let mut h = String::new();
    push_padded_right(&mut h, "DATE", 10);
    h.append("  ");
    push_padded_right(&mut h, "TYPE", 12);
    h.append("  ");
    push_padded_left(&mut h, "AMOUNT", 14);
    h.append("  ");
    push_padded_right(&mut h, "CCY", 6);
    h.append("  COMMENT");
    out.push(h);
    let ghost head = views(out@);
    let ghost lines = rows@.map_values(|r: SearchRow| search_line(r));
    let mut i: usize = 0;
    while i < rows.len()
        invariant
            i <= rows@.len(),
            lines == rows@.map_values(|r: SearchRow| search_line(r)),
            views(out@) == head + lines.subrange(0, i as int),
        decreases rows@.len() - i,
    {
        let l = search_line_text(&rows[i]);
        proof {
            assert(views(out@.push(l)) =~= views(out@).push(l@));
            assert(head + lines.subrange(0, i + 1) =~= (head + lines.subrange(0, i as int)).push(
                lines[i as int],
            ));
        }
        out.push(l);
        i = i + 1;
    }
    proof {
        assert(lines.subrange(0, lines.len() as int) =~= lines);
    }
    out
}


/// No more rows are valid, carry errors, carry warnings, or duplicate an
/// activity than were checked.
pub proof fn lemma_check_counts_bounded(rows: Seq<ActivityImport>)
    ensures
        count_valid(rows) <= rows.len(),
        count_with_errors(rows) <= rows.len(),
        count_with_warnings(rows) <= rows.len(),
        count_duplicates(rows) <= rows.len(),
{
    broadcast use vstd::seq_lib::group_filter_ensures;

}

} // verus!
