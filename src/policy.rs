//! Rate policy, failure policies and the configuration builder.
use vstd::prelude::*;

verus! {

/// Default number of units admitted per window.
pub const DEFAULT_REQUEST_LIMIT: u64 = 5000;

/// Default window length, in seconds.
pub const DEFAULT_PERIOD_SECS: u64 = 3600;

/// Default name of the cookie that identifies a client.
pub const DEFAULT_COOKIE_NAME: &'static str = "sid";

/// Default name of the session attribute that identifies a client.
pub const DEFAULT_SESSION_KEY: &'static str = "rate-api-id";

/// The quota: at most `limit` units in each window of `period_secs` seconds.
#[derive(Clone, Copy, Debug, PartialEq, Eq, Structural)]
pub struct RatePolicy {
    pub limit: u64,
    pub period_secs: u64,
}

impl RatePolicy {
    /// A usable policy admits at least one unit in a window of positive length.
    pub open spec fn wf(&self) -> bool {
        self.limit > 0 && self.period_secs > 0
    }
}

} // verus!
