use wealthfolio_cli::auth::{
    auth_headers, EARLIEST_INSTANT_NS, LATEST_INSTANT_NS, MAX_TIME_DELTA_SECS, login_request, parse_session_cookie, reusable_session, session_from_login,
    SessionCache, SessionError,
};
use wealthfolio_cli::config::Config;
use wealthfolio_cli::error::WfError;

#[test]
fn parses_full_set_cookie_from_live_server() {
    // Captured from a real Wealthfolio v3.4.0 login response.
    let h = "wf_session=eyJ0eXAiOiJKV1QiLCJhbGciOiJIUzI1NiJ9.payload.sig; \
             HttpOnly; SameSite=Lax; Path=/api; Max-Age=3600; Secure";
    let (value, max_age) = parse_session_cookie(h).unwrap();
    assert_eq!(max_age, 3600);
    assert!(value.starts_with("eyJ"));
    assert!(value.ends_with(".sig"));
}

#[test]
fn defaults_max_age_when_absent() {
    let h = "wf_session=abc; HttpOnly";
    let (value, max_age) = parse_session_cookie(h).unwrap();
    assert_eq!(value, "abc");
    assert_eq!(max_age, 3600);
}

#[test]
fn errors_when_session_cookie_missing() {
    let h = "other_cookie=foo; Max-Age=3600";
    assert!(parse_session_cookie(h).is_err());
}

#[test]
fn fresh_enough_uses_refresh_window() {
    let now = chrono::Utc::now().timestamp_nanos_opt().unwrap() as i128;
    let near_expiry = SessionCache {
        session: "x".into(),
        expires_at: now + 10 * 60 * 1_000_000_000,
    };
    assert!(!near_expiry.fresh_enough());

    let plenty = SessionCache {
        session: "x".into(),
        expires_at: now + 45 * 60 * 1_000_000_000,
    };
    assert!(plenty.fresh_enough());
}

#[test]
fn cookie_parse_takes_last_session_and_max_age() {
    let (value, max_age) =
        parse_session_cookie("wf_session=first; Max-Age=10; wf_session=second; Max-Age=20")
            .unwrap();
    assert_eq!(value, "second");
    assert_eq!(max_age, 20);
}

#[test]
fn cookie_parse_ignores_unparsable_max_age() {
    let (_, max_age) = parse_session_cookie("wf_session=v; Max-Age=12; Max-Age=soon").unwrap();
    assert_eq!(max_age, 12);
    let (_, max_age) = parse_session_cookie("wf_session=v; Max-Age=-5").unwrap();
    assert_eq!(max_age, 3600);
    let (_, max_age) = parse_session_cookie("wf_session=v; Max-Age=+7").unwrap();
    assert_eq!(max_age, 7);
    let (_, max_age) =
        parse_session_cookie("wf_session=v; Max-Age=99999999999999999999").unwrap();
    assert_eq!(max_age, 3600);
}

#[test]
fn cookie_parse_trims_parts_and_keeps_empty_value() {
    let (value, max_age) = parse_session_cookie("  HttpOnly ;\twf_session= ; Max-Age=60 ").unwrap();
    assert_eq!(value, "");
    assert_eq!(max_age, 60);
}

#[test]
fn cookie_round_trip_of_server_shape() {
    let h = format!("wf_session={}; Max-Age={}", "tok.en-1", 1234567u64);
    let (value, max_age) = parse_session_cookie(&h).unwrap();
    assert_eq!(value, "tok.en-1");
    assert_eq!(max_age, 1234567);
}

#[test]
fn fresh_enough_at_boundary() {
    let s = SessionCache { session: "x".into(), expires_at: 10_000_000_000_000 };
    assert!(s.fresh_enough_at(10_000_000_000_000 - 1_800_000_000_001));
    assert!(!s.fresh_enough_at(10_000_000_000_000 - 1_800_000_000_000));
    assert!(!s.fresh_enough_at(10_000_000_000_000));
    assert!(!s.fresh_enough_at(i128::MAX));
    assert!(s.fresh_enough_at(i128::MIN));
}

#[test]
fn default_session_refreshes_after_half_its_life() {
    let now = 1_000_000_000_000_000_000i128;
    let s = session_from_login(200, Some("wf_session=abc; Path=/api"), now).unwrap();
    assert_eq!(s.expires_at, now + 3_600_000_000_000);
    assert!(s.fresh_enough_at(now + 1_799_999_999_999));
    assert!(!s.fresh_enough_at(now + 1_800_000_000_000));
}

#[test]
fn reusable_session_only_when_fresh() {
    let s = SessionCache { session: "x".into(), expires_at: 5_000_000_000_000 };
    assert_eq!(reusable_session(Some(s.clone()), 0), Some(s.clone()));
    assert_eq!(reusable_session(Some(s), 4_000_000_000_000), None);
    assert_eq!(reusable_session(None, 0), None);
}

#[test]
fn login_answer_errors() {
    assert_eq!(
        session_from_login(401, Some("wf_session=a"), 0),
        Err(SessionError::Wf(WfError::LoginFailed(401)))
    );
    assert_eq!(session_from_login(200, None, 0), Err(SessionError::MissingSetCookie));
    assert_eq!(
        session_from_login(204, Some("other=1"), 0),
        Err(SessionError::NoSessionCookie)
    );
    let s = session_from_login(299, Some("wf_session=tok; Max-Age=60"), 1000).unwrap();
    assert_eq!(s.session, "tok");
    assert_eq!(s.expires_at, 60_000_001_000);
}

#[test]
fn error_messages() {
    assert_eq!(
        SessionError::Wf(WfError::LoginFailed(401)).to_string(),
        "login failed (HTTP 401); check WEALTHFOLIO_PASSWORD"
    );
    assert_eq!(
        SessionError::Wf(WfError::PasswordMissing).to_string(),
        "WEALTHFOLIO_PASSWORD not set; cannot login"
    );
    assert_eq!(
        SessionError::MissingSetCookie.to_string(),
        "login response missing Set-Cookie header"
    );
    assert_eq!(SessionError::NoSessionCookie.to_string(), "Set-Cookie has no wf_session key");
    assert_eq!(SessionError::InvalidHeaderValue.to_string(), "failed to parse header value");
    assert_eq!(
        WfError::Http { status: 404, body: "nope".into() }.to_string(),
        "server returned 404: nope"
    );
}

#[test]
fn auth_headers_carry_session_cookie() {
    let cache = SessionCache { session: "abc.def".into(), expires_at: 0 };
    let h = auth_headers(&cache).unwrap();
    assert_eq!(h.len(), 1);
    assert_eq!(h.get("cookie").unwrap().to_str().unwrap(), "wf_session=abc.def");
}

#[test]
fn auth_headers_refuse_control_characters() {
    let cache = SessionCache { session: "abc\ndef".into(), expires_at: 0 };
    assert_eq!(auth_headers(&cache).unwrap_err(), SessionError::InvalidHeaderValue);
    let cache = SessionCache { session: "tab\tok é".into(), expires_at: 0 };
    let h = auth_headers(&cache).unwrap();
    assert_eq!(h.get("cookie").unwrap().as_bytes(), "wf_session=tab\tok é".as_bytes());
}

#[test]
fn login_request_needs_password() {
    let cfg = Config::from_parts("https://wf.example.com/", None, "/tmp/c".into());
    assert_eq!(
        login_request(&cfg),
        Err(SessionError::Wf(WfError::PasswordMissing))
    );
    let cfg = Config::from_parts("https://wf.example.com//", Some("pw".into()), "/tmp/c".into());
    assert_eq!(
        login_request(&cfg),
        Ok(("https://wf.example.com/api/v1/auth/login".to_string(), "pw".to_string()))
    );
}

#[test]
fn login_expiry_may_reach_the_latest_instant() {
    let now = LATEST_INSTANT_NS - 60_000_000_000;
    let s = session_from_login(200, Some("wf_session=tok; Max-Age=60"), now).unwrap();
    assert_eq!(s.expires_at, LATEST_INSTANT_NS);
    assert_eq!(LATEST_INSTANT_NS, 8_210_266_876_799_999_999_999);
}

#[test]
fn latest_instant_is_chronos_last() {
    let last = chrono::DateTime::<chrono::Utc>::MAX_UTC;
    assert_eq!(
        last.timestamp() as i128 * 1_000_000_000 + last.timestamp_subsec_nanos() as i128,
        LATEST_INSTANT_NS
    );
}

#[test]
fn longest_lifetime_is_chronos_time_delta_limit() {
    assert!(chrono::TimeDelta::try_seconds(MAX_TIME_DELTA_SECS as i64).is_some());
    assert!(chrono::TimeDelta::try_seconds(MAX_TIME_DELTA_SECS as i64 + 1).is_none());
}

#[test]
fn earliest_instant_is_chronos_first() {
    let first = chrono::DateTime::<chrono::Utc>::MIN_UTC;
    assert_eq!(
        first.timestamp() as i128 * 1_000_000_000 + first.timestamp_subsec_nanos() as i128,
        EARLIEST_INSTANT_NS
    );
}

#[test]
fn max_age_above_i64_wraps_to_a_past_expiry() {
    let now = 1_700_000_000_000_000_000i128;
    let s = session_from_login(200, Some("wf_session=t; Max-Age=18446744073709551615"), now)
        .unwrap();
    assert_eq!(s.expires_at, now - 1_000_000_000);
    assert!(!s.fresh_enough_at(now));
    let s = session_from_login(200, Some("wf_session=t; Max-Age=18446744073709548616"), now)
        .unwrap();
    assert_eq!(s.expires_at, now - 3_000_000_000_000);
}
