//! Resolution of the client key from an ordered chain of strategies.
use vstd::prelude::*;

verus! {

/// Which strategies follow the custom extractor, in their fixed order:
/// cookie, session attribute, then network address.
#[derive(Clone, Copy, Debug, PartialEq, Eq, Structural)]
pub struct ResolverChain {
    pub use_cookie: bool,
    pub use_session: bool,
    pub use_peer_addr: bool,
}

/// What each strategy found on one request.
#[derive(Debug)]
pub struct KeySources {
    /// What the caller-supplied extractor returned, if one is configured.
    pub custom: Option<String>,
    /// The value of the configured cookie.
    pub cookie: Option<String>,
    /// The value of the configured session attribute.
    pub session: Option<String>,
    /// The request's originating network address.
    pub peer_addr: Option<String>,
}

/// A strategy yields a key when it found a value that is not empty.
pub open spec fn yields(v: Option<String>) -> bool {
    v is Some && v->Some_0@.len() > 0
}

/// The first key that an enabled strategy yields, in chain order.
pub open spec fn resolved_key(chain: ResolverChain, src: KeySources) -> Option<Seq<char>> {
    if yields(src.custom) {
        Some(src.custom->Some_0@)
    } else if chain.use_cookie && yields(src.cookie) {
        Some(src.cookie->Some_0@)
    } else if chain.use_session && yields(src.session) {
        Some(src.session->Some_0@)
    } else if chain.use_peer_addr && yields(src.peer_addr) {
        Some(src.peer_addr->Some_0@)
    } else {
        None
    }
}

fn non_empty(v: &Option<String>) -> (r: bool)
    ensures
        r == yields(*v),
{
    match v {
        Some(s) => !s.as_str().is_empty(),
        None => false,
    }
}

/// Tries each enabled strategy in order and returns the first key found.
pub fn resolve_key(chain: ResolverChain, src: KeySources) -> (r: Option<String>)
    ensures
        r is Some <==> resolved_key(chain, src) is Some,
        r is Some ==> r->Some_0@ == resolved_key(chain, src)->Some_0,
{
    if non_empty(&src.custom) {
        src.custom
    } else if chain.use_cookie && non_empty(&src.cookie) {
        src.cookie
    } else if chain.use_session && non_empty(&src.session) {
        src.session
    } else if chain.use_peer_addr && non_empty(&src.peer_addr) {
        src.peer_addr
    } else {
        None
    }
}

/// The custom extractor takes precedence over the cookie; the cookie is used
/// when it alone is present; the network address is used when neither is
/// present and it is configured; and with none of them and no address
/// fallback, no key resolves.
pub proof fn lemma_key_precedence(chain: ResolverChain, src: KeySources)
    ensures
        yields(src.custom) ==> resolved_key(chain, src) == Some(src.custom->Some_0@),
        !yields(src.custom) && chain.use_cookie && yields(src.cookie)
            ==> resolved_key(chain, src) == Some(src.cookie->Some_0@),
        !yields(src.custom) && !yields(src.cookie) && !yields(src.session) && chain.use_peer_addr
            && yields(src.peer_addr) ==> resolved_key(chain, src) == Some(src.peer_addr->Some_0@),
        !yields(src.custom) && !yields(src.cookie) && !yields(src.session) && !chain.use_peer_addr
            ==> resolved_key(chain, src) is None,
{
}

} // verus!
