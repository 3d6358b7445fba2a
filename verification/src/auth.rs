//! Cookie-based session handling for Wealthfolio.
//!
//! The server answers a login with a `wf_session` cookie that carries a
//! `Max-Age`. A session is kept as the cookie value and the instant it
//! expires, in nanoseconds since the Unix epoch, and is refreshed once less
//! than half of the default lifetime remains.

use vstd::prelude::*;
use vstd::string::*;

use reqwest::header::{HeaderMap, HeaderValue, InvalidHeaderValue};
use std::time::Duration;
use vstd::utf8::encode_utf8;

use crate::config::Config;
use crate::error::{is_success_status, wf_error_message, WfError};
use crate::text::{
    all_digits, decimal, is_digit, is_space, lemma_decimal_digits, lemma_parse_decimal,
    lemma_split_concat, lemma_split_without_sep, trim_end, trim_start, chars_of, parse_u64_chars, parse_u64_spec, split_chars, split_on, string_of, strip_prefix,
    strip_prefix_chars, trim, trim_chars,
};

verus! {

/// Nanoseconds of remaining lifetime below which a session is refreshed
/// (thirty minutes).
pub const REFRESH_REMAINING_NS: i128 = 1_800_000_000_000;

/// Lifetime in seconds assumed when the cookie carries no usable `Max-Age`.
pub const DEFAULT_MAX_AGE_SECS: u64 = 3600;

/// The largest number of whole seconds, either way, that a chrono
/// `TimeDelta` can be made from (`i64::MAX / 1000`).
pub const MAX_TIME_DELTA_SECS: u64 = 9_223_372_036_854_775;

/// The first instant a chrono `DateTime<Utc>` can hold (January 1, 262144
/// BCE, 00:00:00 UTC), in nanoseconds since the Unix epoch.
pub const EARLIEST_INSTANT_NS: i128 = -8_334_601_228_800_000_000_000;

/// The last instant a chrono `DateTime<Utc>` can hold (December 31, 262142,
/// 23:59:59.999999999 UTC), in nanoseconds since the Unix epoch.
pub const LATEST_INSTANT_NS: i128 = 8_210_266_876_799_999_999_999;

/// A cached login session.
#[derive(Debug, Clone, PartialEq, Eq)]
pub struct SessionCache {
    /// Value of the `wf_session` cookie.
    pub session: String,
    /// Expiry instant, in nanoseconds since the Unix epoch (UTC).
    pub expires_at: i128,
}

/// Whether a session that expires at `expires_at` is still worth using at
/// `now`: more than the refresh window remains.
pub open spec fn fresh_at(expires_at: i128, now: i128) -> bool {
    expires_at - now > REFRESH_REMAINING_NS
}

/// The whole nanoseconds that a `Duration` holds.
pub uninterp spec fn duration_nanos(d: Duration) -> u128;

/// How far the system clock reads past the Unix epoch
/// (`SystemTime::elapsed` on `UNIX_EPOCH`); `None` when it reads before the
/// epoch. Nothing is claimed of the value: it is read from the system clock.
#[verifier::external_body]
fn time_since_epoch() -> Option<Duration> {
    match std::time::UNIX_EPOCH.elapsed() {
        Ok(d) => Some(d),
        Err(_) => None,
    }
}

/// `Duration::as_nanos`: the whole nanoseconds of `d`.
#[verifier::external_body]
fn duration_as_nanos(d: &Duration) -> (res: u128)
    ensures
        res == duration_nanos(*d),
{
    d.as_nanos()
}

/// The current time by the system clock, in nanoseconds since the Unix
/// epoch; `None` when the clock reads before the epoch.
fn now_nanos() -> (res: Option<i128>)
    ensures
        res matches Some(n) ==> 0 <= n,
{
    match time_since_epoch() {
        Some(d) => {
            let n = duration_as_nanos(&d);
            if n <= i128::MAX as u128 {
                Some(n as i128)
            } else {
                None
            }
        },
        None => None,
    }
}

impl SessionCache {
    /// Whether the session is fresh enough at the instant `now` (ns).
    pub fn fresh_enough_at(&self, now: i128) -> (res: bool)
        ensures
            res == fresh_at(self.expires_at, now),
    {
        if now > i128::MAX - REFRESH_REMAINING_NS {
            false
        } else {
            self.expires_at > now + REFRESH_REMAINING_NS
        }
    }

    /// Whether the session is fresh enough now, by the system clock. A clock
    /// that reads before the Unix epoch counts the session as stale, so that
    /// a new login is made.
    pub fn fresh_enough(&self) -> (res: bool)
        ensures
            exists|now: i128| 0 <= now && res == fresh_at(self.expires_at, now),
    {
        match now_nanos() {
            Some(now) => {
                let res = self.fresh_enough_at(now);
                assert(0 <= now && res == fresh_at(self.expires_at, now));
                res
            },
            None => {
                let ghost w: i128 = if self.expires_at >= 0 {
                    self.expires_at
                } else {
                    0
                };
                assert(0 <= w && false == fresh_at(self.expires_at, w));
                false
            },
        }
    }
}

/// The cached session to reuse at `now`, if there is one and it is fresh;
/// `None` means a new login is due.
pub fn reusable_session(cached: Option<SessionCache>, now: i128) -> (res: Option<SessionCache>)
    ensures
        res == (match cached {
            Some(c) => if fresh_at(c.expires_at, now) {
                Some(c)
            } else {
                None
            },
            None => None,
        }),
{
    match cached {
        Some(c) => {
            if c.fresh_enough_at(now) {
                Some(c)
            } else {
                None
            }
        },
        None => None,
    }
}


/// An error met while establishing a session.
#[derive(Debug, Clone, PartialEq, Eq)]
pub enum SessionError {
    /// The server refused the login, or no password was configured.
    Wf(WfError),
    /// The login answer carried no readable `Set-Cookie` header.
    MissingSetCookie,
    /// The `Set-Cookie` header carried no `wf_session` cookie.
    NoSessionCookie,
    /// The session value cannot be sent as a `Cookie` header.
    InvalidHeaderValue,
}

/// The message that `SessionError` displays.
pub open spec fn session_error_message(e: SessionError) -> Seq<char> {
    match e {
        SessionError::Wf(w) => wf_error_message(w),
        SessionError::MissingSetCookie => "login response missing Set-Cookie header"@,
        SessionError::NoSessionCookie => "Set-Cookie has no wf_session key"@,
        SessionError::InvalidHeaderValue => "failed to parse header value"@,
    }
}

impl SessionError {
    /// The human-readable message for this error.
    pub fn to_string(&self) -> (res: String)
        ensures
            res@ == session_error_message(*self),
    {
        match self {
            SessionError::Wf(w) => w.to_string(),
            SessionError::MissingSetCookie => String::from_str(
                "login response missing Set-Cookie header",
            ),
            SessionError::NoSessionCookie => String::from_str("Set-Cookie has no wf_session key"),
            SessionError::InvalidHeaderValue => String::from_str("failed to parse header value"),
        }
    }
}

/// The value of the last `;`-separated part that, trimmed, starts with
/// `wf_session=`.
pub open spec fn cookie_session_value(parts: Seq<Seq<char>>) -> Option<Seq<char>>
    decreases parts.len(),
{
    if parts.len() == 0 {
        None
    } else {
        match strip_prefix(trim(parts.last()), "wf_session="@) {
            Some(v) => Some(v),
            None => cookie_session_value(parts.drop_last()),
        }
    }
}

/// The number in the last `;`-separated part that, trimmed, is `Max-Age=`
/// followed by a valid `u64`.
pub open spec fn cookie_max_age(parts: Seq<Seq<char>>) -> Option<u64>
    decreases parts.len(),
{
    if parts.len() == 0 {
        None
    } else {
        let t = trim(parts.last());
        if strip_prefix(t, "wf_session="@) is Some {
            cookie_max_age(parts.drop_last())
        } else {
            match strip_prefix(t, "Max-Age="@) {
                Some(v) => match parse_u64_spec(v) {
                    Some(n) => Some(n),
                    None => cookie_max_age(parts.drop_last()),
                },
                None => cookie_max_age(parts.drop_last()),
            }
        }
    }
}

/// The session value and lifetime (seconds) that a `Set-Cookie` header
/// carries, or `None` when it has no `wf_session` cookie. The lifetime is
/// `DEFAULT_MAX_AGE_SECS` when no usable `Max-Age` is present.
pub open spec fn session_cookie(header: Seq<char>) -> Option<(Seq<char>, u64)> {
    let parts = split_on(header, ';');
    match cookie_session_value(parts) {
        Some(v) => Some(
            (
                v,
                match cookie_max_age(parts) {
                    Some(n) => n,
                    None => DEFAULT_MAX_AGE_SECS,
                },
            ),
        ),
        None => None,
    }
}

/// Parses `wf_session=eyJ...; Max-Age=3600; ...` into the session value and
/// its lifetime in seconds.
pub fn parse_session_cookie(set_cookie: &str) -> (res: Result<(String, u64), SessionError>)
    ensures
        match session_cookie(set_cookie@) {
            Some((v, n)) => res matches Ok((s, m)) && s@ == v && m == n,
            None => res == Err::<(String, u64), SessionError>(SessionError::NoSessionCookie),
        },
{
    let chars = chars_of(set_cookie);
    let parts = split_chars(&chars, ';');
    let ghost spec_parts = split_on(set_cookie@, ';');
    let session_prefix = chars_of("wf_session=");
    let age_prefix = chars_of("Max-Age=");
    let mut value: Option<Vec<char>> = None;
    let mut max_age: Option<u64> = None;
    let mut k: usize = 0;
    while k < parts.len()
        invariant
            k <= parts@.len(),
            parts@.len() == spec_parts.len(),
            forall|j: int| 0 <= j < parts@.len() ==> #[trigger] parts@[j]@ == spec_parts[j],
            session_prefix@ == "wf_session="@,
            age_prefix@ == "Max-Age="@,
            match cookie_session_value(spec_parts.subrange(0, k as int)) {
                Some(v) => value matches Some(x) && x@ == v,
                None => value is None,
            },
            max_age == cookie_max_age(spec_parts.subrange(0, k as int)),
        decreases parts@.len() - k,
    {
        let part = trim_chars(&parts[k]);
        proof {
            assert(spec_parts.subrange(0, k + 1).drop_last() =~= spec_parts.subrange(0, k as int));
            assert(spec_parts.subrange(0, k + 1).last() == parts@[k as int]@);
        }
        match strip_prefix_chars(&part, &session_prefix) {
            Some(v) => {
                value = Some(v);
            },
            None => {
                match strip_prefix_chars(&part, &age_prefix) {
                    Some(v) => {
                        match parse_u64_chars(&v) {
                            Some(n) => {
                                max_age = Some(n);
                            },
                            None => {},
                        }
                    },
                    None => {},
                }
            },
        }
        k = k + 1;
    }
    proof {
        assert(spec_parts.subrange(0, parts@.len() as int) =~= spec_parts);
    }
    match value {
        Some(v) => {
            let age = match max_age {
                Some(n) => n,
                None => DEFAULT_MAX_AGE_SECS,
            };
            Ok((string_of(&v), age))
        },
        None => Err(SessionError::NoSessionCookie),
    }
}


/// The lifetime, in seconds, that a cookie's `Max-Age` gives a session: the
/// number taken as an `i64` (`as i64`), so that values above `i64::MAX` wrap
/// around to negative lifetimes.
pub open spec fn lifetime_secs(max_age: u64) -> int {
    if max_age <= i64::MAX {
        max_age as int
    } else {
        max_age - 0x1_0000_0000_0000_0000
    }
}

/// The session that a login answer establishes: the HTTP `status`, the
/// `Set-Cookie` header text (if the answer had a readable one), and the
/// instant `now` (ns) at which the answer arrived.
pub open spec fn login_outcome(status: u16, set_cookie: Option<Seq<char>>, now: i128) -> Result<
    (Seq<char>, int),
    SessionError,
> {
    if !is_success_status(status) {
        Err(SessionError::Wf(WfError::LoginFailed(status)))
    } else {
        match set_cookie {
            None => Err(SessionError::MissingSetCookie),
            Some(h) => match session_cookie(h) {
                None => Err(SessionError::NoSessionCookie),
                Some((v, max_age)) => Ok((v, now + lifetime_secs(max_age) * 1_000_000_000)),
            },
        }
    }
}

/// The view of an optional `&str`.
pub open spec fn opt_str_view(s: Option<&str>) -> Option<Seq<char>> {
    match s {
        Some(x) => Some(x@),
        None => None,
    }
}

/// Whether the lifetime that `max_age` gives can be added to `now` (ns)
/// with chrono: it fits a `TimeDelta`, and the expiry is an instant a
/// `DateTime<Utc>` holds.
pub open spec fn expiry_in_range(now: i128, max_age: u64) -> bool {
    let secs = lifetime_secs(max_age);
    &&& -(MAX_TIME_DELTA_SECS as int) <= secs <= MAX_TIME_DELTA_SECS
    &&& EARLIEST_INSTANT_NS <= now + secs * 1_000_000_000 <= LATEST_INSTANT_NS
}

/// Whether the expiry of the session that a login answer would establish
/// can be computed with chrono (see `expiry_in_range`); answers that
/// establish no session pass.
pub open spec fn login_expiry_in_range(status: u16, set_cookie: Option<Seq<char>>, now: i128) -> bool {
    is_success_status(status) ==> match set_cookie {
        Some(h) => match session_cookie(h) {
            Some((_, n)) => expiry_in_range(now, n),
            None => true,
        },
        None => true,
    }
}

/// Turns the answer to `POST /api/v1/auth/login` into a session: a success
/// status and a `wf_session` cookie give a session that expires `Max-Age`
/// seconds (taken as an `i64`) after `now` (ns).
pub fn session_from_login(status: u16, set_cookie: Option<&str>, now: i128) -> (res: Result<
    SessionCache,
    SessionError,
>)
    requires
        login_expiry_in_range(status, opt_str_view(set_cookie), now),
    ensures
        match login_outcome(status, opt_str_view(set_cookie), now) {
            Ok((v, expires)) => res matches Ok(c) && c.session@ == v && c.expires_at == expires,
            Err(e) => res == Err::<SessionCache, SessionError>(e),
        },
{
    if !(200 <= status && status <= 299) {
        return Err(SessionError::Wf(WfError::LoginFailed(status)));
    }
    let header = match set_cookie {
        Some(h) => h,
        None => {
            return Err(SessionError::MissingSetCookie);
        },
    };
    match parse_session_cookie(header) {
        Ok((value, max_age)) => {
            let secs: i128 = if max_age <= 9_223_372_036_854_775_807 {
                max_age as i128
            } else {
                (max_age as i128) - 0x1_0000_0000_0000_0000
            };
            let expires_at = now + secs * 1_000_000_000;
            Ok(SessionCache { session: value, expires_at })
        },
        Err(e) => Err(e),
    }
}

/// Whether `b` may appear in an HTTP header value: visible ASCII, space,
/// tab, or any byte of 128 and above (`http`'s `HeaderValue` rule).
pub open spec fn header_byte_ok(b: u8) -> bool {
    (b >= 32 && b != 127) || b == 9
}

/// Whether every byte of `bytes` may appear in an HTTP header value.
pub open spec fn header_bytes_ok(bytes: Seq<u8>) -> bool {
    forall|i: int| 0 <= i < bytes.len() ==> header_byte_ok(#[trigger] bytes[i])
}

/// A header map with no entries.
pub open spec fn no_headers() -> Map<Seq<char>, Seq<Seq<u8>>> {
    Map::empty()
}

/// The bytes that a `HeaderValue` holds.
pub uninterp spec fn header_value_bytes(v: HeaderValue) -> Seq<u8>;

/// What a `HeaderMap` holds: for each (lower-case) header name, its values'
/// bytes in order.
pub uninterp spec fn header_map_contents(m: HeaderMap) -> Map<Seq<char>, Seq<Seq<u8>>>;

#[verifier::external_type_specification]
#[verifier::external_body]
pub struct ExHeaderValue(HeaderValue);

#[verifier::external_type_specification]
#[verifier::external_body]
pub struct ExInvalidHeaderValue(InvalidHeaderValue);

#[verifier::external_type_specification]
#[verifier::external_body]
#[verifier::reject_recursive_types(T)]
pub struct ExHeaderMap<T>(reqwest::header::HeaderMap<T>);

/// `HeaderValue::from_str`: succeeds exactly when every byte of the UTF-8
/// encoding of `s` is allowed in a header value, and then holds those bytes.
#[verifier::external_body]
fn header_value_from_str(s: &str) -> (res: Result<HeaderValue, InvalidHeaderValue>)
    ensures
        res is Ok <==> header_bytes_ok(encode_utf8(s@)),
        res matches Ok(v) ==> header_value_bytes(v) == encode_utf8(s@),
{
    HeaderValue::from_str(s)
}

/// `HeaderMap::new`: an empty map.
#[verifier::external_body]
fn header_map_new() -> (res: HeaderMap)
    ensures
        header_map_contents(res) == no_headers(),
{
    HeaderMap::new()
}

/// `HeaderMap::insert` under the `cookie` name, into a map that holds no
/// header yet (`insert` panics only once the map holds its maximum number of
/// entries): the value replaces every value the map held under that name.
#[verifier::external_body]
fn header_map_insert_cookie(m: &mut HeaderMap, v: HeaderValue)
    requires
        header_map_contents(*old(m)) == no_headers(),
    ensures
        header_map_contents(*final(m)) == header_map_contents(*old(m)).insert(
            "cookie"@,
            seq![header_value_bytes(v)],
        ),
{
    m.insert(reqwest::header::COOKIE, v);
}

/// The `Cookie` header text that carries a session value.
pub open spec fn cookie_pair(session: Seq<char>) -> Seq<char> {
    "wf_session="@ + session
}

/// The `wf_session=<value>` text for a session.
pub fn cookie_header_text(cache: &SessionCache) -> (res: String)
    ensures
        res@ == cookie_pair(cache.session@),
{
    let mut s = String::from_str("wf_session=");
    s.append(cache.session.as_str());
    s
}

/// Headers to send with an authenticated request: a single `cookie` header
/// carrying the session, or an error when the session value holds bytes
/// that a header cannot carry.
pub fn auth_headers(cache: &SessionCache) -> (res: Result<HeaderMap, SessionError>)
    ensures
        res is Ok <==> header_bytes_ok(encode_utf8(cookie_pair(cache.session@))),
        res matches Ok(m) ==> header_map_contents(m) == no_headers().insert(
            "cookie"@,
            seq![encode_utf8(cookie_pair(cache.session@))],
        ),
        res is Err ==> res == Err::<HeaderMap, SessionError>(SessionError::InvalidHeaderValue),
{
    let text = cookie_header_text(cache);
    match header_value_from_str(text.as_str()) {
        Ok(v) => {
            let mut h = header_map_new();
            header_map_insert_cookie(&mut h, v);
            Ok(h)
        },
        Err(_) => Err(SessionError::InvalidHeaderValue),
    }
}


/// The API path of the login endpoint.
pub open spec fn login_path() -> Seq<char> {
    "/api/v1/auth/login"@
}

/// Where to log in and with which password; a missing password is an
/// error, reported before anything is sent.
pub fn login_request(cfg: &Config) -> (res: Result<(String, String), SessionError>)
    ensures
        match cfg.password {
            Some(p) => res matches Ok((url, pw)) && url@ == cfg.base_url@ + login_path() && pw == p,
            None => res == Err::<(String, String), SessionError>(
                SessionError::Wf(WfError::PasswordMissing),
            ),
        },
{
    match &cfg.password {
        Some(p) => Ok((cfg.url("/api/v1/auth/login"), p.clone())),
        None => Err(SessionError::Wf(WfError::PasswordMissing)),
    }
}


/// A string with no white space at either end is its own trim.
proof fn lemma_trim_of_untrimmed(s: Seq<char>)
    requires
        s.len() > 0,
        !is_space(s[0]),
        !is_space(s.last()),
    ensures
        trim(s) == s,
{
    assert(trim_end(s) == s);
    assert(trim_start(s) == s);
}

/// A `Set-Cookie` header in the shape the server sends,
/// `wf_session=<value>; Max-Age=<n>`, gives back the value and `n`, for any
/// value without `;` and without trailing white space.
pub proof fn lemma_session_cookie_round_trip(v: Seq<char>, n: u64)
    requires
        !v.contains(';'),
        v.len() == 0 || !is_space(v.last()),
    ensures
        session_cookie("wf_session="@ + v + "; Max-Age="@ + decimal(n as nat)) == Some((v, n)),
{
    reveal_strlit("wf_session=");
    reveal_strlit("; Max-Age=");
    reveal_strlit("Max-Age=");
    let p = "wf_session="@;
    let m = "Max-Age="@;
    let d = decimal(n as nat);
    lemma_decimal_digits(n as nat);
    lemma_parse_decimal(n);
    assert(p =~= seq!['w', 'f', '_', 's', 'e', 's', 's', 'i', 'o', 'n', '=']);
    assert(m =~= seq!['M', 'a', 'x', '-', 'A', 'g', 'e', '=']);
    assert("; Max-Age="@ =~= seq![';', ' '] + m);
    let a = p + v;
    let b = seq![' '] + m + d;
    let h = p + v + "; Max-Age="@ + d;
    assert(h =~= a + seq![';'] + b);
    assert(!a.contains(';')) by {
        if a.contains(';') {
            let i = choose|i: int| 0 <= i < a.len() && a[i] == ';';
            if i >= p.len() {
                assert(v[i - p.len()] == ';');
                assert(v.contains(';'));
            }
        }
    }
    assert(!b.contains(';')) by {
        if b.contains(';') {
            let i = choose|i: int| 0 <= i < b.len() && b[i] == ';';
            if i > m.len() {
                assert(is_digit(d[i - m.len() - 1]));
            }
        }
    }
    lemma_split_concat(a, b, ';');
    lemma_split_without_sep(a, ';');
    lemma_split_without_sep(b, ';');
    let parts = seq![a, b];
    assert(split_on(h, ';') =~= parts);
    assert(a.last() == if v.len() == 0 {
        '='
    } else {
        v.last()
    });
    lemma_trim_of_untrimmed(a);
    let tb = m + d;
    assert(b.drop_first() =~= tb);
    assert(is_digit(d.last())) by {
        assert(is_digit(d[d.len() - 1]));
    }
    assert(b.last() == d.last());
    assert(trim_end(b) == b);
    assert(trim_start(b) == trim_start(tb));
    lemma_trim_of_untrimmed(tb);
    assert(trim(b) == tb);
    assert(tb.subrange(0, m.len() as int) =~= m);
    assert(tb.subrange(m.len() as int, tb.len() as int) =~= d);
    assert(strip_prefix(tb, m) == Some(d));
    assert(tb[0] == 'M');
    if p.len() <= tb.len() {
        assert(tb.subrange(0, p.len() as int)[0] == tb[0]);
        assert(tb.subrange(0, p.len() as int) != p);
    }
    assert(strip_prefix(tb, p) is None);
    assert(a.subrange(0, p.len() as int) =~= p);
    assert(a.subrange(p.len() as int, a.len() as int) =~= v);
    assert(strip_prefix(a, p) == Some(v));
    assert(parts.drop_last() =~= seq![a]);
    assert(parts.last() == b);
    assert(seq![a].drop_last() =~= Seq::<Seq<char>>::empty());
    assert(seq![a].last() == a);
    assert(trim(a) == a);
    assert(cookie_session_value(seq![a]) == Some(v));
    assert(trim(parts.last()) == tb);
    assert(cookie_session_value(parts) == Some(v));
    assert(cookie_max_age(parts) == Some(n));
}


/// A session fresh enough at some instant was fresh enough at every earlier
/// instant.
pub proof fn lemma_freshness_is_monotone(expires_at: i128, earlier: i128, later: i128)
    requires
        earlier <= later,
        fresh_at(expires_at, later),
    ensures
        fresh_at(expires_at, earlier),
{
}

/// At any one instant, a session that expires no earlier than a fresh
/// session is fresh too, and one that expires no later than a stale session
/// is stale too.
pub proof fn lemma_later_expiry_stays_fresh(earlier: i128, later: i128, now: i128)
    requires
        earlier <= later,
    ensures
        fresh_at(earlier, now) ==> fresh_at(later, now),
        !fresh_at(later, now) ==> !fresh_at(earlier, now),
{
}

/// A session from a login whose cookie carries the default lifetime (one
/// hour) is reused until half of that lifetime has elapsed, and refreshed
/// from then on.
pub proof fn lemma_default_session_refreshes_at_half_life(
    status: u16,
    set_cookie: Seq<char>,
    now: i128,
    later: i128,
)
    requires
        login_outcome(status, Some(set_cookie), now) is Ok,
        session_cookie(set_cookie) matches Some((_, n)) && n == DEFAULT_MAX_AGE_SECS,
        now <= later,
        now <= i128::MAX - 3_600_000_000_000,
    ensures
        login_outcome(status, Some(set_cookie), now) matches Ok((_, expires)) && (
        fresh_at(expires as i128, later) <==> later - now < 1_800_000_000_000),
{
}

} // verus!
