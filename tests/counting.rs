use redis_ratelimit::policy::RatePolicy;
use redis_ratelimit::store::MemoryStore;
use redis_ratelimit::window::{increment, CounterRecord, Decision};

fn policy(limit: u64, period_secs: u64) -> RatePolicy {
    RatePolicy { limit, period_secs }
}

fn triple(d: Decision) -> (bool, u64, u64) {
    (d.limited, d.remaining, d.reset_at)
}

#[test]
fn three_per_minute_scenario() {
    let mut store = MemoryStore::new();
    let key = String::from("client-a");
    let p = policy(3, 60);
    assert_eq!(triple(store.increment(&key, p, 1000)), (false, 2, 1060));
    assert_eq!(triple(store.increment(&key, p, 1001)), (false, 1, 1060));
    assert_eq!(triple(store.increment(&key, p, 1010)), (false, 0, 1060));
    assert_eq!(triple(store.increment(&key, p, 1059)), (true, 0, 1060));
}

#[test]
fn remaining_falls_by_one_up_to_limit() {
    let mut store = MemoryStore::new();
    let key = String::from("k");
    let p = policy(10, 100);
    for n in 1..=10u64 {
        let d = store.increment(&key, p, 500 + n);
        assert!(!d.limited);
        assert_eq!(d.remaining, 10 - n);
        assert_eq!(d.reset_at, 601);
    }
}

#[test]
fn every_increment_past_limit_is_denied() {
    let mut store = MemoryStore::new();
    let key = String::from("k");
    let p = policy(2, 30);
    store.increment(&key, p, 0);
    store.increment(&key, p, 0);
    for t in 0..20u64 {
        let d = store.increment(&key, p, t);
        assert_eq!(triple(d), (true, 0, 30));
    }
    assert_eq!(store.record(&key).unwrap().count, 22);
}

#[test]
fn new_window_after_reset() {
    let mut store = MemoryStore::new();
    let key = String::from("k");
    let p = policy(3, 60);
    for _ in 0..5 {
        store.increment(&key, p, 100);
    }
    let d = store.increment(&key, p, 160);
    assert_eq!(triple(d), (false, 2, 220));
    assert_eq!(store.record(&key), Some(CounterRecord { count: 1, expires_at: Some(220) }));
}

#[test]
fn exactly_limit_admitted_out_of_limit_plus_k() {
    let mut store = MemoryStore::new();
    let key = String::from("burst");
    let p = policy(5, 10);
    let mut admitted = 0;
    let mut denied = 0;
    for t in [3u64, 1, 4, 1, 5, 9, 2, 6] {
        if store.increment(&key, p, t).limited {
            denied += 1;
        } else {
            admitted += 1;
        }
    }
    assert_eq!((admitted, denied), (5, 3));
}

#[test]
fn increment_is_kept_when_request_is_dropped() {
    let mut store = MemoryStore::new();
    let key = String::from("k");
    let p = policy(4, 60);
    let _ignored = store.increment(&key, p, 10);
    assert_eq!(store.record(&key).unwrap().count, 1);
    let d = store.increment(&key, p, 11);
    assert_eq!(triple(d), (false, 2, 70));
}

#[test]
fn keys_are_counted_apart() {
    let mut store = MemoryStore::new();
    let a = String::from("a");
    let b = String::from("b");
    let p = policy(1, 60);
    assert!(!store.increment(&a, p, 0).limited);
    assert!(store.increment(&a, p, 1).limited);
    assert!(!store.increment(&b, p, 2).limited);
    assert_eq!(store.record(&b).unwrap().count, 1);
    assert_eq!(store.record(&String::from("c")), None);
}

#[test]
fn missing_expiry_falls_back_to_period() {
    let rec = CounterRecord { count: 2, expires_at: None };
    let (next, d) = increment(Some(rec), policy(5, 40), 100);
    assert_eq!(next, CounterRecord { count: 3, expires_at: None });
    assert_eq!(triple(d), (false, 2, 140));
}

#[test]
fn zero_counter_without_expiry_gets_one() {
    let rec = CounterRecord { count: 0, expires_at: None };
    let (next, d) = increment(Some(rec), policy(5, 40), 100);
    assert_eq!(next, CounterRecord { count: 1, expires_at: Some(140) });
    assert_eq!(triple(d), (false, 4, 140));
}

#[test]
fn expired_record_starts_over() {
    let rec = CounterRecord { count: 9, expires_at: Some(50) };
    let (next, d) = increment(Some(rec), policy(3, 20), 50);
    assert_eq!(next, CounterRecord { count: 1, expires_at: Some(70) });
    assert_eq!(triple(d), (false, 2, 70));
}

#[test]
fn reset_reports_remaining_ttl() {
    let rec = CounterRecord { count: 1, expires_at: Some(90) };
    let (_, d) = increment(Some(rec), policy(3, 60), 75);
    assert_eq!(triple(d), (false, 1, 90));
}
