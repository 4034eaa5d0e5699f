//! What holds of runs of increments on one key.
use vstd::prelude::*;
use crate::policy::RatePolicy;
use crate::window::{CounterRecord, Decision, step, is_live, next_count, can_step, decision_for};

verus! {

/// The record after increments at each instant of `times`, in order.
pub open spec fn run_record(start: Option<CounterRecord>, policy: RatePolicy, times: Seq<u64>) -> Option<CounterRecord>
    decreases times.len(),
{
    if times.len() == 0 {
        start
    } else {
        Some(step(run_record(start, policy, times.drop_last()), policy, times.last()).0)
    }
}

/// The decision of the `i`-th increment of a run.
pub open spec fn run_decision(start: Option<CounterRecord>, policy: RatePolicy, times: Seq<u64>, i: int) -> Decision {
    step(run_record(start, policy, times.take(i)), policy, times[i]).1
}

/// Every instant of the run falls in the window opened by the first one.
pub open spec fn within_window(policy: RatePolicy, times: Seq<u64>) -> bool {
    &&& times.len() > 0
    &&& times[0] + policy.period_secs <= u64::MAX
    &&& forall|i: int| 0 <= i < times.len() ==> times[0] <= #[trigger] times[i] < times[0] + policy.period_secs
}

/// How many of the first `n` increments of a run were admitted.
pub open spec fn admitted(start: Option<CounterRecord>, policy: RatePolicy, times: Seq<u64>, n: int) -> nat
    decreases n,
{
    if n <= 0 {
        0
    } else if run_decision(start, policy, times, n - 1).limited {
        admitted(start, policy, times, n - 1)
    } else {
        admitted(start, policy, times, n - 1) + 1
    }
}

/// On a fresh key, after `k` increments of one window the counter holds `k`
/// and expires one period after the first increment.
pub proof fn lemma_fresh_run_record(policy: RatePolicy, times: Seq<u64>, k: int)
    requires
        policy.wf(),
        within_window(policy, times),
        times.len() < u64::MAX,
        1 <= k <= times.len(),
    ensures
        run_record(None, policy, times.take(k)) == Some(CounterRecord {
            count: k as u64,
            expires_at: Some((times[0] + policy.period_secs) as u64),
        }),
    decreases k,
{
    let t = times.take(k);
    assert(t.drop_last() == times.take(k - 1));
    assert(t.last() == times[k - 1]);
    if k == 1 {
        assert(times.take(0).len() == 0);
    } else {
        lemma_fresh_run_record(policy, times, k - 1);
        assert(times[0] <= times[k - 1] < times[0] + policy.period_secs);
    }
}

/// The `i`-th increment (counting from zero) of one window on a fresh key.
pub open spec fn fresh_decision(policy: RatePolicy, times: Seq<u64>, i: int) -> Decision {
    decision_for(policy.limit, i + 1, times[0] + policy.period_secs)
}

proof fn lemma_fresh_run_decision(policy: RatePolicy, times: Seq<u64>, i: int)
    requires
        policy.wf(),
        within_window(policy, times),
        times.len() < u64::MAX,
        0 <= i < times.len(),
    ensures
        run_decision(None, policy, times, i) == fresh_decision(policy, times, i),
{
    if i > 0 {
        lemma_fresh_run_record(policy, times, i);
    } else {
        assert(times.take(0).len() == 0);
    }
    assert(times[0] <= times[i] < times[0] + policy.period_secs);
}

/// Within one window on a fresh key, each of the first `limit` increments is
/// admitted, the remaining quota falls by exactly one per increment and ends
/// at `limit - n` after `n` of them, and every decision reports the same reset
/// instant: one period after the first increment.
pub proof fn lemma_admitted_within_quota(policy: RatePolicy, times: Seq<u64>, i: int)
    requires
        policy.wf(),
        within_window(policy, times),
        times.len() < u64::MAX,
        0 <= i < times.len(),
        i < policy.limit,
    ensures
        run_decision(None, policy, times, i) == (Decision {
            limited: false,
            remaining: (policy.limit - (i + 1)) as u64,
            reset_at: (times[0] + policy.period_secs) as u64,
        }),
        i > 0 ==> run_decision(None, policy, times, i).remaining + 1
            == run_decision(None, policy, times, i - 1).remaining,
{
    lemma_fresh_run_decision(policy, times, i);
    if i > 0 {
        lemma_fresh_run_decision(policy, times, i - 1);
    }
}

/// Within one window on a fresh key, the increment past the quota and every
/// later one is denied with no quota remaining, and reports the same reset
/// instant as the first.
pub proof fn lemma_denied_over_quota(policy: RatePolicy, times: Seq<u64>, i: int)
    requires
        policy.wf(),
        within_window(policy, times),
        times.len() < u64::MAX,
        policy.limit <= i < times.len(),
    ensures
        run_decision(None, policy, times, i) == (Decision {
            limited: true,
            remaining: 0,
            reset_at: (times[0] + policy.period_secs) as u64,
        }),
{
    lemma_fresh_run_decision(policy, times, i);
}

/// However `limit + k` increments on one key within a window are ordered by
/// the store, exactly `limit` of them are admitted and `k` denied.
pub proof fn lemma_exactly_limit_admitted(policy: RatePolicy, times: Seq<u64>, k: nat)
    requires
        policy.wf(),
        within_window(policy, times),
        times.len() < u64::MAX,
        times.len() == policy.limit + k,
    ensures
        admitted(None, policy, times, times.len() as int) == policy.limit,
        times.len() - admitted(None, policy, times, times.len() as int) == k,
{
    lemma_admitted_prefix(policy, times, times.len() as int);
}

proof fn lemma_admitted_prefix(policy: RatePolicy, times: Seq<u64>, n: int)
    requires
        policy.wf(),
        within_window(policy, times),
        times.len() < u64::MAX,
        0 <= n <= times.len(),
    ensures
        admitted(None, policy, times, n) == if n < policy.limit { n } else { policy.limit as int },
    decreases n,
{
    if n > 0 {
        lemma_admitted_prefix(policy, times, n - 1);
        lemma_fresh_run_decision(policy, times, n - 1);
    }
}

/// Once the instant reported as the reset has come, the next increment opens
/// a new window: the count starts again at one and the reset instant is one
/// period after that increment.
pub proof fn lemma_new_window_after_reset(policy: RatePolicy, times: Seq<u64>, now: u64)
    requires
        policy.wf(),
        within_window(policy, times),
        times.len() < u64::MAX,
        now >= run_decision(None, policy, times, times.len() - 1).reset_at,
        now + policy.period_secs <= u64::MAX,
    ensures
        !is_live(run_record(None, policy, times), now),
        step(run_record(None, policy, times), policy, now) == (
            CounterRecord { count: 1, expires_at: Some((now + policy.period_secs) as u64) },
            decision_for(policy.limit, 1, now + policy.period_secs),
        ),
{
    lemma_fresh_run_decision(policy, times, times.len() - 1);
    lemma_fresh_run_record(policy, times, times.len() as int);
    assert(times.take(times.len() as int) == times);
}

/// An increment is never taken back: whatever becomes of the request that
/// made it, the next increment in the window counts on top of it, and when
/// both are admitted it reports one unit less remaining.
pub proof fn lemma_increment_kept(r: Option<CounterRecord>, policy: RatePolicy, t1: u64, t2: u64)
    requires
        policy.wf(),
        can_step(r, policy, t1),
        is_live(Some(step(r, policy, t1).0), t2),
        can_step(Some(step(r, policy, t1).0), policy, t2),
    ensures
        next_count(Some(step(r, policy, t1).0), t2) == step(r, policy, t1).0.count + 1,
        !step(Some(step(r, policy, t1).0), policy, t2).1.limited ==>
            step(Some(step(r, policy, t1).0), policy, t2).1.remaining + 1
                == step(r, policy, t1).1.remaining,
{
}

} // verus!
