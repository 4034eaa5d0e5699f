//! The admission outcome of a request: resolve, evaluate, then admit or deny.
use vstd::prelude::*;
use crate::protocol::StoreError;
use crate::resolve::{KeySources, ResolverChain, resolve_key, resolved_key};
use crate::window::Decision;

verus! {

/// What to do when a decision cannot be had.
#[derive(Clone, Copy, Debug, PartialEq, Eq, Structural)]
pub enum FailurePolicy {
    /// Admit the request unmetered.
    FailOpen,
    /// Deny the request.
    FailClosed,
}

/// Why a request was denied.
#[derive(Clone, Copy, Debug, PartialEq, Eq, Structural)]
pub enum DenyReason {
    /// The client used up its quota for the window.
    QuotaExceeded,
    /// No client key could be resolved.
    UnresolvedKey,
    /// The shared store could not be used.
    StoreUnavailable,
}

/// The terminal state of a request.
#[derive(Clone, Copy, Debug, PartialEq, Eq, Structural)]
pub enum Admission {
    /// Continue downstream; the decision is there when the request was counted.
    Admitted { decision: Option<Decision> },
    /// Answer "too many requests" or "unavailable" without going downstream.
    Denied { reason: DenyReason, decision: Option<Decision> },
}

/// The outcome when no client key could be resolved: no store call is made.
pub open spec fn unresolved_admission(on_unresolved: FailurePolicy) -> Admission {
    match on_unresolved {
        FailurePolicy::FailOpen => Admission::Admitted { decision: None },
        FailurePolicy::FailClosed => Admission::Denied { reason: DenyReason::UnresolvedKey, decision: None },
    }
}

/// Applies the unresolved-key policy.
pub fn admit_unresolved(on_unresolved: FailurePolicy) -> (r: Admission)
    ensures
        r == unresolved_admission(on_unresolved),
{
    match on_unresolved {
        FailurePolicy::FailOpen => Admission::Admitted { decision: None },
        FailurePolicy::FailClosed => Admission::Denied { reason: DenyReason::UnresolvedKey, decision: None },
    }
}

/// The resolving state of a request: the key to count under, or, when no
/// strategy yields one, the request's outcome.
pub fn resolve_request(chain: ResolverChain, src: KeySources, on_unresolved: FailurePolicy) -> (r: Result<String, Admission>)
    ensures
        match resolved_key(chain, src) {
            Some(k) => r is Ok && r->Ok_0@ == k,
            None => r == Err::<String, Admission>(unresolved_admission(on_unresolved)),
        },
{
    match resolve_key(chain, src) {
        Some(k) => Ok(k),
        None => Err(admit_unresolved(on_unresolved)),
    }
}

/// The outcome once the evaluator answered for a resolved key.
pub open spec fn evaluated_admission(result: Result<Decision, StoreError>, on_store_error: FailurePolicy) -> Admission {
    match result {
        Ok(d) => if d.limited {
            Admission::Denied { reason: DenyReason::QuotaExceeded, decision: Some(d) }
        } else {
            Admission::Admitted { decision: Some(d) }
        },
        Err(_) => match on_store_error {
            FailurePolicy::FailOpen => Admission::Admitted { decision: None },
            FailurePolicy::FailClosed => Admission::Denied {
                reason: DenyReason::StoreUnavailable,
                decision: None,
            },
        },
    }
}

/// Turns the evaluator's answer into the request's outcome, applying the
/// store-failure policy to an error.
pub fn admit_evaluated(result: Result<Decision, StoreError>, on_store_error: FailurePolicy) -> (r: Admission)
    ensures
        r == evaluated_admission(result, on_store_error),
{
    match result {
        Ok(d) => if d.limited {
            Admission::Denied { reason: DenyReason::QuotaExceeded, decision: Some(d) }
        } else {
            Admission::Admitted { decision: Some(d) }
        },
        Err(_) => match on_store_error {
            FailurePolicy::FailOpen => Admission::Admitted { decision: None },
            FailurePolicy::FailClosed => Admission::Denied { reason: DenyReason::StoreUnavailable, decision: None },
        },
    }
}

/// Seconds a denied client should wait: from `now` to the reset instant, or
/// zero once it has passed.
pub fn retry_after(reset_at: u64, now: u64) -> (r: u64)
    ensures
        r == if reset_at > now { reset_at - now } else { 0 },
{
    if reset_at > now {
        reset_at - now
    } else {
        0
    }
}

} // verus!
