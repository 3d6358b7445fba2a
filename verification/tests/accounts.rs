use wealthfolio_cli::commands::accounts::{
    account_list_lines, created_line, deleted_line, fetch_account, run, update_body, updated_line,
    AccountAction, AccountCmd, AccountError, UpdateArgs,
};
use wealthfolio_cli::config::Config;
use wealthfolio_cli::models::account::{Account, AccountUpdate, NewAccount};

fn sample_account() -> Account {
    Account {
        id: "uuid-1".into(),
        name: "LINE Bank".into(),
        account_type: "SAVINGS".into(),
        currency: "TWD".into(),
        is_default: false,
        is_active: true,
        is_archived: false,
        tracking_mode: "HOLDINGS".into(),
        group: Some("Personal".into()),
        platform_id: None,
        account_number: Some("****1651".into()),
        meta: None,
        provider: None,
        provider_account_id: None,
        created_at: Some("2026-05-15T00:00:00".into()),
        updated_at: Some("2026-05-15T00:00:00".into()),
    }
}

fn no_changes(id: &str) -> UpdateArgs {
    UpdateArgs {
        id: id.into(),
        name: None,
        currency: None,
        account_type: None,
        tracking: None,
        group: None,
        platform_id: None,
        account_number: None,
        is_default: None,
        is_active: None,
        emit_json: false,
    }
}

#[test]
fn account_update_from_account_preserves_required_fields() {
    let a = sample_account();
    let u = AccountUpdate::from(&a);
    assert_eq!(u.id, "uuid-1");
    assert_eq!(u.name, "LINE Bank");
    assert_eq!(u.account_type, "SAVINGS");
    assert_eq!(u.currency, "TWD");
    assert_eq!(u.tracking_mode, "HOLDINGS");
    assert_eq!(u.group.as_deref(), Some("Personal"));
    assert_eq!(u.account_number.as_deref(), Some("****1651"));
    assert!(!u.is_default);
    assert!(u.is_active);
}

#[test]
fn update_without_changes_is_from() {
    let a = sample_account();
    assert_eq!(update_body(&a, no_changes("uuid-1")), AccountUpdate::from(&a));
}

#[test]
fn update_changes_only_given_fields() {
    let a = sample_account();
    let mut args = no_changes("uuid-1");
    args.tracking = Some("TRANSACTIONS".into());
    args.platform_id = Some("p-1".into());
    args.is_active = Some(false);
    let u = update_body(&a, args);
    assert_eq!(u.tracking_mode, "TRANSACTIONS");
    assert_eq!(u.platform_id.as_deref(), Some("p-1"));
    assert!(!u.is_active);
    assert_eq!(u.name, "LINE Bank");
    assert_eq!(u.group.as_deref(), Some("Personal"));
    assert_eq!(u.currency, "TWD");
}

#[test]
fn fetch_account_finds_first_match() {
    let mut b = sample_account();
    b.id = "uuid-2".into();
    b.name = "Other".into();
    let mut c = sample_account();
    c.name = "Duplicate id".into();
    let found = fetch_account(vec![b.clone(), sample_account(), c], "uuid-1").unwrap();
    assert_eq!(found.name, "LINE Bank");
    let err = fetch_account(vec![b], "nope").unwrap_err();
    assert_eq!(err, AccountError::NotFound("nope".into()));
    assert_eq!(err.to_string(), "no account with id nope");
}

#[test]
fn account_commands_target_endpoints() {
    let cfg = Config::from_parts("https://wf.local///", None, String::new());
    assert_eq!(
        run(&cfg, &AccountCmd::List { json: true }),
        AccountAction::List { url: "https://wf.local/api/v1/accounts".into(), json: true }
    );
    assert_eq!(
        run(&cfg, &AccountCmd::Delete { id: "x-1".into() }),
        AccountAction::Delete { url: "https://wf.local/api/v1/accounts/x-1".into(), id: "x-1".into() }
    );
    let create = AccountCmd::Create {
        name: "LINE Bank".into(),
        currency: "TWD".into(),
        account_type: "SAVINGS".into(),
        tracking: "TRANSACTIONS".into(),
        default: true,
        platform_id: None,
        group: Some("G".into()),
        account_number: None,
        json: false,
    };
    assert_eq!(
        run(&cfg, &create),
        AccountAction::Create {
            url: "https://wf.local/api/v1/accounts".into(),
            body: NewAccount {
                name: "LINE Bank".into(),
                account_type: "SAVINGS".into(),
                currency: "TWD".into(),
                is_default: true,
                is_active: true,
                tracking_mode: "TRANSACTIONS".into(),
                group: Some("G".into()),
                platform_id: None,
                account_number: None,
            },
            json: false,
        }
    );
    let update = AccountCmd::Update {
        id: "x-1".into(),
        name: None,
        currency: None,
        account_type: None,
        tracking: Some("TRANSACTIONS".into()),
        group: None,
        platform_id: None,
        account_number: None,
        default: None,
        active: Some(true),
        json: true,
    };
    match run(&cfg, &update) {
        AccountAction::Update { list_url, put_url, args } => {
            assert_eq!(list_url, "https://wf.local/api/v1/accounts");
            assert_eq!(put_url, "https://wf.local/api/v1/accounts/x-1");
            assert_eq!(args.tracking.as_deref(), Some("TRANSACTIONS"));
            assert_eq!(args.is_active, Some(true));
            assert!(args.emit_json);
        }
        other => panic!("unexpected {other:?}"),
    }
}

#[test]
fn account_table_lines() {
    assert_eq!(account_list_lines(&vec![]), vec!["(no accounts)".to_string()]);
    let lines = account_list_lines(&vec![sample_account()]);
    assert_eq!(lines.len(), 2);
    assert_eq!(
        lines[0],
        format!("{:<36}  {:<10}  {:<14}  {:<12}  NAME", "ID", "CURRENCY", "TYPE", "TRACKING")
    );
    assert_eq!(
        lines[1],
        format!("{:<36}  {:<10}  {:<14}  {:<12}  {}", "uuid-1", "TWD", "SAVINGS", "HOLDINGS", "LINE Bank")
    );
}

#[test]
fn account_result_lines() {
    let a = sample_account();
    assert_eq!(created_line(&a), "created: LINE Bank (uuid-1)");
    assert_eq!(updated_line(&a), "updated: LINE Bank (uuid-1) — tracking=HOLDINGS currency=TWD");
    assert_eq!(deleted_line("uuid-1"), "deleted: uuid-1");
}
