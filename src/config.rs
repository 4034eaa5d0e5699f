//! Assembling and validating a limiter's configuration.
use vstd::prelude::*;
use crate::admission::FailurePolicy;
use crate::policy::{RatePolicy, DEFAULT_REQUEST_LIMIT, DEFAULT_PERIOD_SECS, DEFAULT_COOKIE_NAME, DEFAULT_SESSION_KEY};
use crate::resolve::ResolverChain;

verus! {

/// Why a configuration was refused.
#[derive(Clone, Copy, Debug, PartialEq, Eq, Structural)]
pub enum ConfigError {
    /// The limit is zero.
    ZeroLimit,
    /// The period is zero.
    ZeroPeriod,
    /// Cookie resolution is enabled with an empty cookie name.
    EmptyCookieName,
    /// Session resolution is enabled with an empty session key.
    EmptySessionKey,
}

/// A validated configuration, fixed for the limiter's lifetime.
#[derive(Debug)]
pub struct LimiterConfig {
    pub policy: RatePolicy,
    pub cookie_name: String,
    pub session_key: String,
    pub chain: ResolverChain,
    pub on_unresolved: FailurePolicy,
    pub on_store_error: FailurePolicy,
}

impl LimiterConfig {
    pub open spec fn wf(&self) -> bool {
        &&& self.policy.wf()
        &&& self.chain.use_cookie ==> self.cookie_name@.len() > 0
        &&& self.chain.use_session ==> self.session_key@.len() > 0
    }
}

/// Collects the settings of a limiter; `build` checks them.
#[derive(Debug)]
pub struct ConfigBuilder {
    pub limit: u64,
    pub period_secs: u64,
    pub cookie_name: String,
    pub session_key: String,
    pub chain: ResolverChain,
    pub on_unresolved: FailurePolicy,
    pub on_store_error: FailurePolicy,
}

/// The first setting that `build` refuses, if any.
pub open spec fn config_error(b: ConfigBuilder) -> Option<ConfigError> {
    if b.limit == 0 {
        Some(ConfigError::ZeroLimit)
    } else if b.period_secs == 0 {
        Some(ConfigError::ZeroPeriod)
    } else if b.chain.use_cookie && b.cookie_name@.len() == 0 {
        Some(ConfigError::EmptyCookieName)
    } else if b.chain.use_session && b.session_key@.len() == 0 {
        Some(ConfigError::EmptySessionKey)
    } else {
        None
    }
}

impl ConfigBuilder {
    /// The defaults: 5000 units per hour, keyed by the `sid` cookie, session
    /// and address strategies off, and requests denied both when no key
    /// resolves and when the store fails.
    pub fn new() -> (r: ConfigBuilder)
        ensures
            r.limit == DEFAULT_REQUEST_LIMIT,
            r.period_secs == DEFAULT_PERIOD_SECS,
            r.cookie_name@ == DEFAULT_COOKIE_NAME@,
            r.session_key@ == DEFAULT_SESSION_KEY@,
            r.chain == (ResolverChain { use_cookie: true, use_session: false, use_peer_addr: false }),
            r.on_unresolved == FailurePolicy::FailClosed,
            r.on_store_error == FailurePolicy::FailClosed,
    {
        ConfigBuilder {
            limit: DEFAULT_REQUEST_LIMIT,
            period_secs: DEFAULT_PERIOD_SECS,
            cookie_name: DEFAULT_COOKIE_NAME.to_owned(),
            session_key: DEFAULT_SESSION_KEY.to_owned(),
            chain: ResolverChain { use_cookie: true, use_session: false, use_peer_addr: false },
            on_unresolved: FailurePolicy::FailClosed,
            on_store_error: FailurePolicy::FailClosed,
        }
    }

    /// Sets the number of units admitted per window.
    pub fn limit(self, v: u64) -> (r: ConfigBuilder)
        ensures
            r == (ConfigBuilder { limit: v, ..self }),
    {
        ConfigBuilder { limit: v, ..self }
    }

    /// Sets the window length, in seconds.
    pub fn period(self, v: u64) -> (r: ConfigBuilder)
        ensures
            r == (ConfigBuilder { period_secs: v, ..self }),
    {
        ConfigBuilder { period_secs: v, ..self }
    }

    /// Sets the name of the cookie that identifies a client.
    pub fn cookie_name(self, v: String) -> (r: ConfigBuilder)
        ensures
            r == (ConfigBuilder { cookie_name: v, ..self }),
    {
        ConfigBuilder { cookie_name: v, ..self }
    }

    /// Sets the name of the session attribute that identifies a client.
    pub fn session_key(self, v: String) -> (r: ConfigBuilder)
        ensures
            r == (ConfigBuilder { session_key: v, ..self }),
    {
        ConfigBuilder { session_key: v, ..self }
    }

    /// Chooses the strategies that follow the custom extractor.
    pub fn chain(self, v: ResolverChain) -> (r: ConfigBuilder)
        ensures
            r == (ConfigBuilder { chain: v, ..self }),
    {
        ConfigBuilder { chain: v, ..self }
    }

    /// Chooses what happens to a request whose key does not resolve.
    pub fn on_unresolved(self, v: FailurePolicy) -> (r: ConfigBuilder)
        ensures
            r == (ConfigBuilder { on_unresolved: v, ..self }),
    {
        ConfigBuilder { on_unresolved: v, ..self }
    }

    /// Chooses what happens to a request when the store fails.
    pub fn on_store_error(self, v: FailurePolicy) -> (r: ConfigBuilder)
        ensures
            r == (ConfigBuilder { on_store_error: v, ..self }),
    {
        ConfigBuilder { on_store_error: v, ..self }
    }

    /// Checks the settings and freezes them.
    pub fn build(self) -> (r: Result<LimiterConfig, ConfigError>)
        ensures
            r is Err <==> config_error(self) is Some,
            r is Err ==> r->Err_0 == config_error(self)->Some_0,
            r is Ok ==> r->Ok_0.wf(),
            r is Ok ==> r->Ok_0.policy == (RatePolicy { limit: self.limit, period_secs: self.period_secs }),
            r is Ok ==> r->Ok_0.cookie_name == self.cookie_name && r->Ok_0.session_key == self.session_key,
            r is Ok ==> r->Ok_0.chain == self.chain,
            r is Ok ==> r->Ok_0.on_unresolved == self.on_unresolved && r->Ok_0.on_store_error == self.on_store_error,
    {
        if self.limit == 0 {
            return Err(ConfigError::ZeroLimit);
        }
        if self.period_secs == 0 {
            return Err(ConfigError::ZeroPeriod);
        }
        if self.chain.use_cookie && self.cookie_name.as_str().is_empty() {
            return Err(ConfigError::EmptyCookieName);
        }
        if self.chain.use_session && self.session_key.as_str().is_empty() {
            return Err(ConfigError::EmptySessionKey);
        }
        Ok(LimiterConfig {
            policy: RatePolicy { limit: self.limit, period_secs: self.period_secs },
            cookie_name: self.cookie_name,
            session_key: self.session_key,
            chain: self.chain,
            on_unresolved: self.on_unresolved,
            on_store_error: self.on_store_error,
        })
    }
}

} // verus!
