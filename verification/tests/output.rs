use wealthfolio_cli::commands::activity_output::{
    bulk_summary_lines, check_summary_lines, import_summary_line, parse_summary_lines,
    search_listing_lines, SearchRow,
};
use wealthfolio_cli::commands::doctor::{
    config_report_lines, doctor_step, stage_label_text, DoctorFinding, DoctorStage,
};
use wealthfolio_cli::commands::default_log_filter;
use wealthfolio_cli::config::Config;
use wealthfolio_cli::models::activity::{ActivityImport, ImportParseResponse};

fn s(strs: &[&str]) -> Vec<String> {
    strs.iter().map(|s| s.to_string()).collect()
}

#[test]
fn parse_summary_shows_counts_and_preview() {
    let resp = ImportParseResponse {
        headers: s(&["date", "amount"]),
        rows: vec![s(&["a", "1"]), s(&["b", "2"]), s(&["c", "3"]), s(&["d", "4"])],
        detected_config: "{}".into(),
        errors: s(&["{\"row\":1}"]),
        row_count: 4,
    };
    assert_eq!(
        parse_summary_lines(&resp),
        s(&[
            "rows detected : 4",
            "headers       : date, amount",
            "errors        : 1",
            "  - {\"row\":1}",
            "preview (first 3 rows):",
            "  a | 1",
            "  b | 2",
            "  c | 3",
        ])
    );
    let empty = ImportParseResponse {
        headers: vec![],
        rows: vec![],
        detected_config: String::new(),
        errors: vec![],
        row_count: 0,
    };
    assert_eq!(
        parse_summary_lines(&empty),
        s(&["rows detected : 0", "headers       : ", "errors        : 0"])
    );
}

#[test]
fn check_summary_counts_rows() {
    let ok = ActivityImport {
        date: "2026-04-01".into(),
        activity_type: "DEPOSIT".into(),
        currency: "TWD".into(),
        amount: Some("100".into()),
        is_valid: true,
        ..Default::default()
    };
    let bad = ActivityImport {
        date: "2026-04-02".into(),
        activity_type: "WITHDRAWAL".into(),
        currency: "TWD".into(),
        is_valid: false,
        errors: Some("{\"amount\":[\"missing\"]}".into()),
        warnings: Some("{}".into()),
        duplicate_of_id: Some("abc-123".into()),
        ..Default::default()
    };
    assert_eq!(
        check_summary_lines(&vec![ok, bad]),
        s(&[
            "check: 1/2 valid",
            "  errors     : 1",
            "  warnings   : 1",
            "  duplicates : 1",
            "  row 2 (2026-04-02 WITHDRAWAL ): errors = {\"amount\":[\"missing\"]}",
            "  row 2 (2026-04-02 WITHDRAWAL ): duplicate of abc-123",
        ])
    );
}

#[test]
fn import_summary_needs_all_counts() {
    assert_eq!(
        import_summary_line(Some(3), Some(2), Some(1), Some(0), 3),
        "import: total=3 imported=2 skipped=1 duplicates=0"
    );
    assert_eq!(import_summary_line(Some(3), None, Some(1), Some(0), 7), "import: ok (7 rows sent)");
}

#[test]
fn bulk_summary_shows_first_ten_errors() {
    let errors: Vec<String> = (0..12).map(|i| format!("e{i}")).collect();
    let lines = bulk_summary_lines(Some(2), None, Some(1), Some(errors));
    assert_eq!(lines.len(), 11);
    assert_eq!(lines[0], "bulk: created=2 updated=0 deleted=1 errors=12");
    assert_eq!(lines[1], "  - e0");
    assert_eq!(lines[10], "  - e9");
    assert_eq!(bulk_summary_lines(None, None, None, None), s(&["bulk: created=0 updated=0 deleted=0 errors=0"]));
}

#[test]
fn search_listing_formats_rows() {
    let long: String = "x".repeat(61);
    let rows = vec![
        SearchRow {
            date: Some("2026-04-01T00:00:00Z".into()),
            activity_type: Some("DEPOSIT".into()),
            amount: Some("2000".into()),
            currency: Some("TWD".into()),
            comment: Some(long.clone()),
        },
        SearchRow { date: None, activity_type: None, amount: None, currency: None, comment: None },
    ];
    let lines = search_listing_lines(Some(40), &rows);
    assert_eq!(lines.len(), 4);
    assert_eq!(lines[0], "2 rows (total 40)");
    assert_eq!(
        lines[1],
        format!("{:<10}  {:<12}  {:>14}  {:<6}  COMMENT", "DATE", "TYPE", "AMOUNT", "CCY")
    );
    let cut: String = long.chars().take(60).collect();
    assert_eq!(
        lines[2],
        format!("{:<10}  {:<12}  {:>14}  {:<6}  {}", "2026-04-01", "DEPOSIT", "2000", "TWD", format!("{cut}…"))
    );
    assert_eq!(lines[3], format!("{:<10}  {:<12}  {:>14}  {:<6}  {}", "", "?", "", "", ""));
    assert_eq!(search_listing_lines(None, &vec![]), s(&["0 rows (total -1)"]));
}

#[test]
fn doctor_reports_config_without_password() {
    let cfg = Config::from_parts("https://wf.example.com", Some("secret".into()), "/home/u/.cache/wf".into());
    let lines = config_report_lines(&cfg);
    assert_eq!(lines[0], "=== wf doctor ===");
    assert_eq!(lines[1], "base_url            : https://wf.example.com");
    assert_eq!(lines[2], "password            : <set>");
    assert_eq!(lines[3], "cache_dir           : /home/u/.cache/wf");
    assert_eq!(lines[4], "cookies_path        : /home/u/.cache/wf/cookies.json");
    assert!(!lines.iter().any(|l| l.contains("secret")));
}

#[test]
fn log_filter_by_verbosity() {
    assert_eq!(default_log_filter(0), "warn");
    assert_eq!(default_log_filter(1), "info,wealthfolio_cli=debug");
    assert_eq!(default_log_filter(2), "debug");
    assert_eq!(default_log_filter(9), "trace");
}

#[test]
fn doctor_checks_run_in_order_until_one_fails() {
    assert_eq!(stage_label_text(DoctorStage::Connectivity), "connectivity        : ");
    assert_eq!(stage_label_text(DoctorStage::Login), "login               : ");
    assert_eq!(stage_label_text(DoctorStage::AuthedCall), "authed call (/auth/me): ");
    assert_eq!(
        doctor_step(DoctorStage::Connectivity, &DoctorFinding::Reachable(200)),
        ("HTTP 200 \u{2713}".to_string(), Some(DoctorStage::Login))
    );
    assert_eq!(
        doctor_step(DoctorStage::Login, &DoctorFinding::LoggedIn("2026-04-01 10:00:00 UTC".into())),
        ("ok, expires 2026-04-01 10:00:00 UTC".to_string(), Some(DoctorStage::AuthedCall))
    );
    assert_eq!(
        doctor_step(DoctorStage::AuthedCall, &DoctorFinding::Answered("{\"ok\":true}".into())),
        ("{\"ok\":true} \u{2713}".to_string(), None)
    );
    assert_eq!(
        doctor_step(DoctorStage::Login, &DoctorFinding::Failed("login failed (HTTP 401)".into())),
        ("\u{2717} login failed (HTTP 401)".to_string(), None)
    );
    assert_eq!(
        doctor_step(DoctorStage::Connectivity, &DoctorFinding::Failed("connection refused".into())).1,
        None
    );
}
