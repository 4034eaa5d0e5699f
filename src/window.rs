//! The atomic counting protocol as one state transition of a key's counter.
//!
//! A counter record holds the number of units counted in the current window
//! and, once set, the instant at which the store drops it. A record whose
//! expiry has passed counts as absent, as the store's passive expiry makes it.
use vstd::prelude::*;
use crate::policy::RatePolicy;

verus! {

/// What the shared store holds for one client key.
#[derive(Clone, Copy, Debug, PartialEq, Eq, Structural)]
pub struct CounterRecord {
    pub count: u64,
    /// Absolute expiry in seconds; `None` when no expiry is set on the key.
    pub expires_at: Option<u64>,
}

/// The outcome of one increment.
#[derive(Clone, Copy, Debug, PartialEq, Eq, Structural)]
pub struct Decision {
    pub limited: bool,
    pub remaining: u64,
    pub reset_at: u64,
}

/// The record is still held by the store at time `now`.
pub open spec fn is_live(r: Option<CounterRecord>, now: u64) -> bool {
    match r {
        Some(rec) => match rec.expires_at {
            Some(e) => now < e,
            None => true,
        },
        None => false,
    }
}

/// The count after an increment at `now`: a live counter goes up by one, an
/// absent or expired one starts over at one.
pub open spec fn next_count(r: Option<CounterRecord>, now: u64) -> int {
    if is_live(r, now) {
        r->Some_0.count + 1
    } else {
        1
    }
}

/// The record after an increment at `now`. The expiry is set exactly when the
/// increment created the counter.
pub open spec fn next_record(r: Option<CounterRecord>, policy: RatePolicy, now: u64) -> CounterRecord {
    let c = next_count(r, now);
    CounterRecord {
        count: c as u64,
        expires_at: if c == 1 {
            Some((now + policy.period_secs) as u64)
        } else {
            r->Some_0.expires_at
        },
    }
}

/// Seconds left before the record expires; the full period when the store
/// reports no expiry.
pub open spec fn ttl_of(rec: CounterRecord, policy: RatePolicy, now: u64) -> int {
    match rec.expires_at {
        Some(e) => e - now,
        None => policy.period_secs as int,
    }
}

/// The decision for a post-increment `count`.
pub open spec fn decision_for(limit: u64, count: int, reset_at: int) -> Decision {
    Decision {
        limited: count > limit,
        remaining: if count > limit { 0 } else { (limit - count) as u64 },
        reset_at: reset_at as u64,
    }
}

/// One run of the counting protocol: the new record and the decision.
pub open spec fn step(r: Option<CounterRecord>, policy: RatePolicy, now: u64) -> (CounterRecord, Decision) {
    let rec = next_record(r, policy, now);
    (rec, decision_for(policy.limit, rec.count as int, now + ttl_of(rec, policy, now)))
}

/// The increment may run: the counter has room for one more and the reset
/// instant fits in a `u64`.
pub open spec fn can_step(r: Option<CounterRecord>, policy: RatePolicy, now: u64) -> bool {
    &&& now + policy.period_secs <= u64::MAX
    &&& is_live(r, now) ==> r->Some_0.count < u64::MAX
    }

/// Runs the counting protocol once on a key's record at time `now`.
pub fn increment(r: Option<CounterRecord>, policy: RatePolicy, now: u64) -> (res: (CounterRecord, Decision))
    requires
        can_step(r, policy, now),
    ensures
        res == step(r, policy, now),
{
    let live = match r {
        Some(rec) => match rec.expires_at {
            Some(e) => now < e,
            None => true,
        },
        None => false,
    };
    let count: u64 = if live {
        r.unwrap().count + 1
    } else {
        1
    };
    let expires_at = if count == 1 {
        Some(now + policy.period_secs)
    } else {
        r.unwrap().expires_at
    };
    let rec = CounterRecord { count, expires_at };
    let ttl: u64 = match expires_at {
        Some(e) => e - now,
        None => policy.period_secs,
    };
    let limited = count > policy.limit;
    let remaining: u64 = if limited {
        0
    } else {
        policy.limit - count
    };
    (rec, Decision { limited, remaining, reset_at: now + ttl })
}

} // verus!
