use wealthfolio_cli::commands::net_worth::{run, NetWorthAction, NetWorthCmd};
use wealthfolio_cli::config::{normalize_base_url, Config};
use wealthfolio_cli::error::status_is_success;
use wealthfolio_cli::text::{chars_of, parse_u64_chars};

#[test]
fn base_url_loses_trailing_slashes() {
    assert_eq!(normalize_base_url("https://wf.example.com///"), "https://wf.example.com");
    assert_eq!(normalize_base_url("https://wf.example.com"), "https://wf.example.com");
    assert_eq!(normalize_base_url("///"), "");
    let once = normalize_base_url("http://a/b//");
    assert_eq!(normalize_base_url(&once), once);
}

#[test]
fn cookies_path_joins_cache_dir() {
    let p = |dir: &str| Config::from_parts("x", None, dir.into()).cookies_path();
    assert_eq!(p("/home/u/.cache/wf"), "/home/u/.cache/wf/cookies.json");
    assert_eq!(p("/home/u/.cache/wf/"), "/home/u/.cache/wf/cookies.json");
    assert_eq!(p(""), "cookies.json");
    assert_eq!(
        p("/home/u/.cache/wf"),
        std::path::Path::new("/home/u/.cache/wf").join("cookies.json").to_str().unwrap()
    );
}

#[test]
fn urls_append_paths() {
    let cfg = Config::from_parts("https://wf.example.com/", None, String::new());
    assert_eq!(cfg.url("/api/v1/net-worth"), "https://wf.example.com/api/v1/net-worth");
}

#[test]
fn success_statuses() {
    assert!(status_is_success(200));
    assert!(status_is_success(299));
    assert!(!status_is_success(199));
    assert!(!status_is_success(300));
    assert!(!status_is_success(401));
}

#[test]
fn u64_parsing_matches_std() {
    for text in ["0", "+7", "42", "18446744073709551615", "18446744073709551616", "", "+", "-1", "1a", " 1", "٣"] {
        assert_eq!(parse_u64_chars(&chars_of(text)), text.parse::<u64>().ok(), "{text:?}");
    }
}

#[test]
fn net_worth_command_targets_endpoint() {
    let cfg = Config::from_parts("https://wf.example.com/", None, String::new());
    assert_eq!(
        run(&cfg, &NetWorthCmd::Current { json: true }),
        NetWorthAction::Current { url: "https://wf.example.com/api/v1/net-worth".into(), json: true }
    );
}
