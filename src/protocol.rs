//! The store-side script, its arguments and the reading of its reply.
use vstd::prelude::*;
use crate::policy::RatePolicy;
use crate::window::{CounterRecord, Decision, can_step, step};

verus! {

/// The counting protocol as one store-side script: increment, set the expiry
/// on creation, read the time to live, and return
/// `{limited, remaining, reset_at}`.
pub const COUNTER_SCRIPT: &'static str = r#"
local key   = KEYS[1]
local limit = tonumber(ARGV[1])
local win   = tonumber(ARGV[2])
local now   = tonumber(ARGV[3])

local cnt = redis.call("INCR", key)
if cnt == 1 then
    redis.call("EXPIRE", key, win)
end

local ttl = redis.call("TTL", key)
if ttl < 0 then ttl = win end

local limited = cnt > limit and 1 or 0
local remaining = limited == 1 and 0 or (limit - cnt)
return {limited, remaining, now + ttl}
"#;

/// Why a count could not be had from the shared store.
#[derive(Clone, Copy, Debug, PartialEq, Eq, Structural)]
pub enum StoreError {
    /// No connection to the store could be obtained.
    Connection,
    /// The script failed in the store, or the exchange with it failed.
    Operation,
    /// The store answered with something other than a decision triple.
    MalformedReply,
    /// An argument does not fit the store's signed integers.
    ArgumentOutOfRange,
}

/// The script's arguments `[limit, period, now]`, when each fits an `i64`.
pub fn script_args(policy: RatePolicy, now: u64) -> (r: Result<Vec<i64>, StoreError>)
    ensures
        r is Ok <==> (policy.limit <= i64::MAX && policy.period_secs <= i64::MAX && now <= i64::MAX),
        r is Ok ==> r->Ok_0@ == seq![policy.limit as i64, policy.period_secs as i64, now as i64],
        r is Err ==> r->Err_0 == StoreError::ArgumentOutOfRange,
{
    let max: u64 = i64::MAX as u64;
    if policy.limit > max || policy.period_secs > max || now > max {
        return Err(StoreError::ArgumentOutOfRange);
    }
    let mut args: Vec<i64> = Vec::new();
    args.push(policy.limit as i64);
    args.push(policy.period_secs as i64);
    args.push(now as i64);
    Ok(args)
}

/// A reply that carries a decision: three integers, a 0/1 flag, a quota left
/// that is not negative and is zero when limited, and a reset instant that is
/// not negative.
pub open spec fn reply_well_formed(reply: Seq<i64>) -> bool {
    &&& reply.len() == 3
    &&& (reply[0] == 0 || reply[0] == 1)
    &&& reply[1] >= 0
    &&& (reply[0] == 1 ==> reply[1] == 0)
    &&& reply[2] >= 0
}

/// The decision that a well-formed reply carries.
pub open spec fn reply_decision(reply: Seq<i64>) -> Decision {
    Decision { limited: reply[0] == 1, remaining: reply[1] as u64, reset_at: reply[2] as u64 }
}

/// Reads the script's reply into a decision.
pub fn decision_from_reply(reply: &Vec<i64>) -> (r: Result<Decision, StoreError>)
    ensures
        r is Ok <==> reply_well_formed(reply@),
        r is Ok ==> r->Ok_0 == reply_decision(reply@),
        r is Err ==> r->Err_0 == StoreError::MalformedReply,
{
    if reply.len() != 3 {
        return Err(StoreError::MalformedReply);
    }
    let flag = reply[0];
    let remaining = reply[1];
    let reset = reply[2];
    if (flag != 0 && flag != 1) || remaining < 0 || (flag == 1 && remaining != 0) || reset < 0 {
        return Err(StoreError::MalformedReply);
    }
    Ok(Decision { limited: flag == 1, remaining: remaining as u64, reset_at: reset as u64 })
}

/// The reply that the script gives for a decision: `{limited, remaining, reset_at}`.
pub open spec fn reply_of(d: Decision) -> Seq<i64> {
    seq![if d.limited { 1i64 } else { 0i64 }, d.remaining as i64, d.reset_at as i64]
}

/// Whatever the key's record, the protocol's decision, sent back as the
/// script's reply, is read back as that same decision, provided its numbers
/// fit the store's integers.
pub proof fn lemma_reply_round_trip(r: Option<CounterRecord>, policy: RatePolicy, now: u64)
    requires
        policy.wf(),
        can_step(r, policy, now),
        policy.limit <= i64::MAX,
        step(r, policy, now).1.reset_at <= i64::MAX,
    ensures
        reply_well_formed(reply_of(step(r, policy, now).1)),
        reply_decision(reply_of(step(r, policy, now).1)) == step(r, policy, now).1,
{
}

} // verus!
