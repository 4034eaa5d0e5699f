use redis_ratelimit::admission::{admit_evaluated, admit_unresolved, resolve_request, retry_after, Admission, DenyReason, FailurePolicy};
use redis_ratelimit::config::{ConfigBuilder, ConfigError};
use redis_ratelimit::policy::{RatePolicy, DEFAULT_COOKIE_NAME, DEFAULT_PERIOD_SECS, DEFAULT_REQUEST_LIMIT, DEFAULT_SESSION_KEY};
use redis_ratelimit::protocol::{decision_from_reply, script_args, StoreError, COUNTER_SCRIPT};
use redis_ratelimit::resolve::{resolve_key, KeySources, ResolverChain};
use redis_ratelimit::window::Decision;

fn sources(custom: Option<&str>, cookie: Option<&str>, session: Option<&str>, peer: Option<&str>) -> KeySources {
    KeySources {
        custom: custom.map(String::from),
        cookie: cookie.map(String::from),
        session: session.map(String::from),
        peer_addr: peer.map(String::from),
    }
}

const ALL: ResolverChain = ResolverChain { use_cookie: true, use_session: true, use_peer_addr: true };
const COOKIE_ONLY: ResolverChain = ResolverChain { use_cookie: true, use_session: false, use_peer_addr: false };

#[test]
fn custom_extractor_wins_over_cookie() {
    let k = resolve_key(ALL, sources(Some("user-7"), Some("abc"), None, Some("10.0.0.1")));
    assert_eq!(k.as_deref(), Some("user-7"));
}

#[test]
fn cookie_used_when_alone() {
    let k = resolve_key(COOKIE_ONLY, sources(None, Some("abc"), None, None));
    assert_eq!(k.as_deref(), Some("abc"));
}

#[test]
fn session_follows_cookie() {
    let k = resolve_key(ALL, sources(None, None, Some("sess"), Some("10.0.0.1")));
    assert_eq!(k.as_deref(), Some("sess"));
}

#[test]
fn address_fallback_used_last() {
    let k = resolve_key(ALL, sources(None, None, None, Some("10.0.0.1")));
    assert_eq!(k.as_deref(), Some("10.0.0.1"));
}

#[test]
fn empty_values_do_not_resolve() {
    let k = resolve_key(ALL, sources(Some(""), Some(""), None, Some("10.0.0.1")));
    assert_eq!(k.as_deref(), Some("10.0.0.1"));
}

#[test]
fn nothing_resolves_without_fallback() {
    assert_eq!(resolve_key(COOKIE_ONLY, sources(None, None, Some("s"), Some("10.0.0.1"))), None);
}

#[test]
fn unresolved_follows_policy() {
    let open = resolve_request(COOKIE_ONLY, sources(None, None, None, None), FailurePolicy::FailOpen);
    assert_eq!(open, Err(Admission::Admitted { decision: None }));
    let closed = resolve_request(COOKIE_ONLY, sources(None, None, None, None), FailurePolicy::FailClosed);
    assert_eq!(closed, Err(Admission::Denied { reason: DenyReason::UnresolvedKey, decision: None }));
    let ok = resolve_request(COOKIE_ONLY, sources(None, Some("c"), None, None), FailurePolicy::FailClosed);
    assert_eq!(ok, Ok(String::from("c")));
    assert_eq!(admit_unresolved(FailurePolicy::FailOpen), Admission::Admitted { decision: None });
}

#[test]
fn evaluated_outcomes() {
    let ok = Decision { limited: false, remaining: 3, reset_at: 99 };
    let over = Decision { limited: true, remaining: 0, reset_at: 99 };
    assert_eq!(admit_evaluated(Ok(ok), FailurePolicy::FailClosed), Admission::Admitted { decision: Some(ok) });
    assert_eq!(
        admit_evaluated(Ok(over), FailurePolicy::FailOpen),
        Admission::Denied { reason: DenyReason::QuotaExceeded, decision: Some(over) }
    );
    assert_eq!(
        admit_evaluated(Err(StoreError::Connection), FailurePolicy::FailClosed),
        Admission::Denied { reason: DenyReason::StoreUnavailable, decision: None }
    );
    assert_eq!(admit_evaluated(Err(StoreError::Operation), FailurePolicy::FailOpen), Admission::Admitted { decision: None });
}

#[test]
fn retry_delay() {
    assert_eq!(retry_after(160, 100), 60);
    assert_eq!(retry_after(100, 160), 0);
}

#[test]
fn builder_defaults() {
    let b = ConfigBuilder::new();
    assert_eq!(b.limit, DEFAULT_REQUEST_LIMIT);
    assert_eq!(b.limit, 5000);
    assert_eq!(b.period_secs, DEFAULT_PERIOD_SECS);
    assert_eq!(b.period_secs, 3600);
    assert_eq!(b.cookie_name, DEFAULT_COOKIE_NAME);
    assert_eq!(b.cookie_name, "sid");
    assert_eq!(b.session_key, DEFAULT_SESSION_KEY);
    assert_eq!(b.on_unresolved, FailurePolicy::FailClosed);
    let c = b.build().unwrap();
    assert_eq!(c.policy, RatePolicy { limit: 5000, period_secs: 3600 });
}

#[test]
fn builder_setters_and_errors() {
    let c = ConfigBuilder::new().limit(7).period(30).cookie_name(String::from("id")).build().unwrap();
    assert_eq!(c.policy, RatePolicy { limit: 7, period_secs: 30 });
    assert_eq!(c.cookie_name, "id");
    assert_eq!(ConfigBuilder::new().limit(0).build().unwrap_err(), ConfigError::ZeroLimit);
    assert_eq!(ConfigBuilder::new().period(0).build().unwrap_err(), ConfigError::ZeroPeriod);
    assert_eq!(ConfigBuilder::new().cookie_name(String::new()).build().unwrap_err(), ConfigError::EmptyCookieName);
    let s = ConfigBuilder::new().session_key(String::new()).chain(ALL).build().unwrap_err();
    assert_eq!(s, ConfigError::EmptySessionKey);
    let off = ResolverChain { use_cookie: false, use_session: false, use_peer_addr: true };
    assert!(ConfigBuilder::new().cookie_name(String::new()).chain(off).build().is_ok());
    let f = ConfigBuilder::new().on_store_error(FailurePolicy::FailOpen).on_unresolved(FailurePolicy::FailOpen);
    let c = f.build().unwrap();
    assert_eq!(c.on_store_error, FailurePolicy::FailOpen);
    assert_eq!(c.on_unresolved, FailurePolicy::FailOpen);
}

#[test]
fn script_arguments() {
    let p = RatePolicy { limit: 3, period_secs: 60 };
    assert_eq!(script_args(p, 1_700_000_000), Ok(vec![3, 60, 1_700_000_000]));
    let big = RatePolicy { limit: u64::MAX, period_secs: 60 };
    assert_eq!(script_args(big, 0), Err(StoreError::ArgumentOutOfRange));
    assert_eq!(script_args(p, u64::MAX), Err(StoreError::ArgumentOutOfRange));
    assert!(COUNTER_SCRIPT.contains("INCR"));
}

#[test]
fn reply_reading() {
    assert_eq!(decision_from_reply(&vec![0, 2, 1060]), Ok(Decision { limited: false, remaining: 2, reset_at: 1060 }));
    assert_eq!(decision_from_reply(&vec![1, 0, 1060]), Ok(Decision { limited: true, remaining: 0, reset_at: 1060 }));
    assert_eq!(decision_from_reply(&vec![0, 2]), Err(StoreError::MalformedReply));
    assert_eq!(decision_from_reply(&vec![2, 0, 5]), Err(StoreError::MalformedReply));
    assert_eq!(decision_from_reply(&vec![0, -1, 5]), Err(StoreError::MalformedReply));
    assert_eq!(decision_from_reply(&vec![1, 3, 5]), Err(StoreError::MalformedReply));
    assert_eq!(decision_from_reply(&vec![0, 3, -5]), Err(StoreError::MalformedReply));
}
