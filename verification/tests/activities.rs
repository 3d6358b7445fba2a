use wealthfolio_cli::commands::activities::{
    bulk_body, map_csv_to_activities, run, ActivityAction, ActivityCmd, BulkBodyError, BulkInput,
};
use wealthfolio_cli::commands::csv_map::{ColumnIndex, CsvMapError};
use wealthfolio_cli::config::Config;
use wealthfolio_cli::models::activity::{ActivityBulkMutationRequest, ActivitySearchRequest, NewActivity};

fn s(strs: &[&str]) -> Vec<String> {
    strs.iter().map(|s| s.to_string()).collect()
}

#[test]
fn maps_required_columns() {
    let headers = s(&["date", "activityType", "amount", "currency"]);
    let rows = vec![s(&["2026-04-01", "WITHDRAWAL", "2000", "TWD"])];
    let acts = map_csv_to_activities(&headers, &rows, "acct-1").unwrap();
    assert_eq!(acts.len(), 1);
    let a = &acts[0];
    assert_eq!(a.date, "2026-04-01");
    assert_eq!(a.activity_type, "WITHDRAWAL");
    assert_eq!(a.amount.as_deref(), Some("2000"));
    assert_eq!(a.currency, "TWD");
    assert_eq!(a.account_id.as_deref(), Some("acct-1"));
}

#[test]
fn header_case_and_underscore_insensitive() {
    let headers = s(&["Date", "ACTIVITY_TYPE", "Amount", "currency"]);
    let rows = vec![s(&["2026-04-01", "DEPOSIT", "100", "TWD"])];
    let acts = map_csv_to_activities(&headers, &rows, "acct-x").unwrap();
    assert_eq!(acts[0].activity_type, "DEPOSIT");
}

#[test]
fn carries_optional_columns() {
    let headers = s(&[
        "date",
        "activityType",
        "amount",
        "currency",
        "symbol",
        "comment",
        "fee",
    ]);
    let rows = vec![s(&[
        "2026-04-01",
        "WITHDRAWAL",
        "2000",
        "TWD",
        "$CASH-TWD",
        "groceries",
        "15",
    ])];
    let acts = map_csv_to_activities(&headers, &rows, "acct-1").unwrap();
    let a = &acts[0];
    assert_eq!(a.symbol, "$CASH-TWD");
    assert_eq!(a.comment.as_deref(), Some("groceries"));
    assert_eq!(a.fee.as_deref(), Some("15"));
}

#[test]
fn empty_cells_become_none() {
    let headers = s(&["date", "activityType", "amount", "currency", "fee"]);
    let rows = vec![s(&["2026-04-01", "DEPOSIT", "100", "TWD", ""])];
    let acts = map_csv_to_activities(&headers, &rows, "acct-1").unwrap();
    assert!(acts[0].fee.is_none());
}

#[test]
fn strips_crlf_remnants() {
    let headers = s(&["date", "activityType", "amount", "currency"]);
    let rows = vec![s(&["2026-04-01", "DEPOSIT", "100", "TWD\r"])];
    let acts = map_csv_to_activities(&headers, &rows, "acct-1").unwrap();
    assert_eq!(acts[0].currency, "TWD");
}

#[test]
fn unknown_columns_ignored() {
    let headers = s(&["date", "activityType", "amount", "currency", "ignored_col"]);
    let rows = vec![s(&["2026-04-01", "DEPOSIT", "100", "TWD", "x"])];
    let acts = map_csv_to_activities(&headers, &rows, "acct-1").unwrap();
    assert_eq!(acts.len(), 1);
    assert_eq!(acts[0].currency, "TWD");
}

#[test]
fn missing_required_column_errors() {
    let headers = s(&["activityType", "amount", "currency"]);
    let rows: Vec<Vec<String>> = vec![];
    let err = map_csv_to_activities(&headers, &rows, "acct-1").unwrap_err();
    assert!(err.to_string().contains("'date'"));
}

#[test]
fn empty_required_cell_errors() {
    let headers = s(&["date", "activityType", "amount", "currency"]);
    let rows = vec![s(&["", "DEPOSIT", "100", "TWD"])];
    let err = map_csv_to_activities(&headers, &rows, "acct-1").unwrap_err();
    assert!(err.to_string().contains("'date'"));
}

#[test]
fn type_alias_accepted() {
    let headers = s(&["date", "type", "amount", "currency"]);
    let rows = vec![s(&["2026-04-01", "DEPOSIT", "100", "TWD"])];
    let acts = map_csv_to_activities(&headers, &rows, "acct-1").unwrap();
    assert_eq!(acts[0].activity_type, "DEPOSIT");
}

#[test]
fn csv_errors_name_row_and_column() {
    let headers = s(&["date", "type"]);
    let rows = vec![s(&["2026-04-01", "DEPOSIT"]), s(&["2026-04-02", "  \r"]), s(&["", ""])];
    let err = map_csv_to_activities(&headers, &rows, "a").unwrap_err();
    assert_eq!(err, CsvMapError::EmptyActivityType(2));
    assert_eq!(err.to_string(), "row 2 (1-indexed): empty 'activityType'");
    let err = map_csv_to_activities(&s(&["date"]), &rows, "a").unwrap_err();
    assert_eq!(err.to_string(), "CSV missing 'activityType' column");
    let err = map_csv_to_activities(&headers, &vec![s(&["2026-04-01"])], "a").unwrap_err();
    assert_eq!(err, CsvMapError::EmptyActivityType(1));
    assert_eq!(CsvMapError::EmptyDate(12).to_string(), "row 12 (1-indexed): empty 'date'");
}

#[test]
fn csv_aliases_last_header_wins_and_defaults() {
    let headers = s(&[" Qty ", "Price", "memo", "date", "Type", "FX_RATE", "sub_type", "ID", "notes"]);
    let rows = vec![s(&["3", "1.5", "first", "2026-01-02", "BUY", "31.2", "DRIP", "row-9", "second"])];
    let acts = map_csv_to_activities(&headers, &rows, "acct").unwrap();
    let a = &acts[0];
    assert_eq!(a.quantity.as_deref(), Some("3"));
    assert_eq!(a.unit_price.as_deref(), Some("1.5"));
    assert_eq!(a.comment.as_deref(), Some("second"));
    assert_eq!(a.fx_rate.as_deref(), Some("31.2"));
    assert_eq!(a.subtype.as_deref(), Some("DRIP"));
    assert_eq!(a.id.as_deref(), Some("row-9"));
    assert_eq!(a.symbol, "");
    assert_eq!(a.currency, "");
    assert!(a.amount.is_none());
    assert!(a.is_valid);
    assert!(!a.is_draft);
    assert!(a.errors.is_none() && a.warnings.is_none() && a.duplicate_of_id.is_none());
}

#[test]
fn column_index_assign_and_ignore() {
    let mut idx = ColumnIndex::empty();
    idx.assign("  Unit_Price ", 4);
    assert_eq!(idx.unit_price, Some(4));
    idx.assign("whatever", 5);
    assert_eq!(idx, {
        let mut e = ColumnIndex::empty();
        e.unit_price = Some(4);
        e
    });
    idx.assign("PRICE", 7);
    assert_eq!(idx.unit_price, Some(7));
}

#[test]
fn short_rows_read_as_empty_cells() {
    let headers = s(&["date", "type", "fee"]);
    let rows = vec![s(&["2026-04-01", "FEE"])];
    let acts = map_csv_to_activities(&headers, &rows, "a").unwrap();
    assert!(acts[0].fee.is_none());
}

fn new_activity(kind: &str, amount: Option<&str>) -> NewActivity {
    NewActivity {
        account_id: "a".into(),
        activity_type: kind.into(),
        activity_date: "2026-04-01".into(),
        currency: "TWD".into(),
        amount: amount.map(|s| s.to_string()),
        ..Default::default()
    }
}

#[test]
fn bulk_body_accepts_top_level_array() {
    let body = bulk_body(BulkInput::Array(vec![new_activity("DEPOSIT", Some("100"))])).unwrap();
    assert_eq!(body.creates.len(), 1);
    assert_eq!(body.updates.len(), 0);
    assert_eq!(body.delete_ids.len(), 0);
    assert_eq!(body.creates[0].activity_type, "DEPOSIT");
    assert_eq!(body.creates[0].amount.as_deref(), Some("100"));
}

#[test]
fn bulk_body_accepts_full_mutation_object() {
    let input = ActivityBulkMutationRequest {
        creates: vec![new_activity("DEPOSIT", None)],
        updates: vec![],
        delete_ids: vec!["row-x".to_string(), "row-y".to_string()],
    };
    let body = bulk_body(BulkInput::Object(input)).unwrap();
    assert_eq!(body.creates.len(), 1);
    assert_eq!(body.delete_ids, vec!["row-x", "row-y"]);
}

#[test]
fn bulk_body_empty_payload_errors() {
    let input = ActivityBulkMutationRequest { creates: vec![], updates: vec![], delete_ids: vec![] };
    let err = bulk_body(BulkInput::Object(input)).unwrap_err();
    assert!(err.to_string().contains("nothing to do"));
}

#[test]
fn bulk_body_empty_array_errors() {
    let err = bulk_body(BulkInput::Array(vec![])).unwrap_err();
    assert!(err.to_string().contains("nothing to do"));
}

#[test]
fn bulk_body_scalar_errors() {
    let err = bulk_body(BulkInput::Scalar).unwrap_err();
    assert!(err.to_string().contains("array or object"));
}

#[test]
fn bulk_body_updates_alone_suffice() {
    let input = ActivityBulkMutationRequest {
        creates: vec![],
        updates: vec!["{\"id\":\"x\"}".to_string()],
        delete_ids: vec![],
    };
    assert!(bulk_body(BulkInput::Object(input)).is_ok());
    assert_eq!(BulkBodyError::NothingToDo.to_string(), "nothing to do: creates/updates/deleteIds all empty");
}

#[test]
fn activity_commands_target_endpoints() {
    let cfg = Config::from_parts("http://h:1/", None, String::new());
    match run(&cfg, &ActivityCmd::ImportCheck { account: "a".into(), file: "f.csv".into(), json: true }) {
        ActivityAction::ImportCheck { parse_url, check_url, account, file, json } => {
            assert_eq!(parse_url, "http://h:1/api/v1/activities/import/parse");
            assert_eq!(check_url, "http://h:1/api/v1/activities/import/check");
            assert_eq!((account.as_str(), file.as_str(), json), ("a", "f.csv", true));
        }
        other => panic!("unexpected {other:?}"),
    }
    assert_eq!(
        run(&cfg, &ActivityCmd::Delete { id: "act-7".into() }),
        ActivityAction::Delete { url: "http://h:1/api/v1/activities/act-7".into(), id: "act-7".into() }
    );
    assert_eq!(
        run(
            &cfg,
            &ActivityCmd::Search {
                account: Some("acct-1".into()),
                page: 2,
                page_size: 50,
                date_from: None,
                date_to: Some("2026-05-01".into()),
                json: false
            }
        ),
        ActivityAction::Search {
            url: "http://h:1/api/v1/activities/search".into(),
            body: ActivitySearchRequest {
                page: 2,
                page_size: 50,
                account_id_filter: Some("acct-1".into()),
                activity_type_filter: None,
                date_from: None,
                date_to: Some("2026-05-01".into()),
            },
            json: false
        }
    );
    match run(&cfg, &ActivityCmd::Import { account: "a".into(), file: "f".into(), json: false }) {
        ActivityAction::Import { import_url, .. } => {
            assert_eq!(import_url, "http://h:1/api/v1/activities/import")
        }
        other => panic!("unexpected {other:?}"),
    }
    match run(&cfg, &ActivityCmd::BulkCreate { file: "b.json".into(), json: false }) {
        ActivityAction::BulkCreate { url, .. } => assert_eq!(url, "http://h:1/api/v1/activities/bulk"),
        other => panic!("unexpected {other:?}"),
    }
}
