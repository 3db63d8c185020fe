use vstd::prelude::*;
use crate::error::AuthError;

verus! {

/// A bearer token and the second (since the Unix epoch) at which it expires.
#[derive(Debug, Clone)]
pub struct CachedToken {
    pub value: String,
    pub expires_at: u64,
}

/// `a + b`, or the largest `u64` where the sum does not fit.
pub open spec fn saturating_sum(a: u64, b: u64) -> u64 {
    if a + b <= u64::MAX {
        (a + b) as u64
    } else {
        u64::MAX
    }
}

impl CachedToken {
    /// A token that is valid for `expires_in` seconds from `received_at`, the
    /// moment its response arrived.
    pub fn from_expires_in(value: String, expires_in: u64, received_at: u64) -> (r: CachedToken)
        ensures
            r.value == value,
            r.expires_at == saturating_sum(received_at, expires_in),
    {
        let expires_at = if expires_in <= u64::MAX - received_at {
            received_at + expires_in
        } else {
            u64::MAX
        };
        CachedToken { value, expires_at }
    }
}

/// Whether `held` is a token that is still valid at `now`.
pub open spec fn is_fresh(held: Option<CachedToken>, now: u64) -> bool {
    held matches Some(t) && now < t.expires_at
}

/// The token a lookup at `now` serves from `held`, or `None` when a fetch is due.
pub open spec fn served(held: Option<CachedToken>, now: u64) -> Option<Seq<char>> {
    if is_fresh(held, now) {
        Some(held->0.value@)
    } else {
        None
    }
}

/// The token held after a fetch that gave `fetched`: a new token replaces the
/// old one whole; a failure leaves it as it was.
pub open spec fn held_after_fetch(held: Option<CachedToken>, fetched: Result<CachedToken, AuthError>) -> Option<CachedToken> {
    match fetched {
        Ok(t) => Some(t),
        Err(_) => held,
    }
}

/// What a fetch that gave `fetched` hands to the caller.
pub open spec fn fetch_answer(fetched: Result<CachedToken, AuthError>) -> Result<Seq<char>, AuthError> {
    match fetched {
        Ok(t) => Ok(t.value@),
        Err(e) => Err(e),
    }
}

/// One request for a token at `now`: the token held afterwards and the answer.
/// `fetched` is what the source would give, and is asked for only when the
/// held token is missing or expired.
pub open spec fn token_request(held: Option<CachedToken>, now: u64, fetched: Result<CachedToken, AuthError>) -> (Option<CachedToken>, Result<Seq<char>, AuthError>) {
    match served(held, now) {
        Some(v) => (held, Ok(v)),
        None => (held_after_fetch(held, fetched), fetch_answer(fetched)),
    }
}

/// The outcome of looking a token up in the cache.
#[derive(Debug, Clone)]
pub enum TokenLookup {
    /// The held token, still valid.
    Ready(String),
    /// No valid token is held: the source must be asked for one.
    Refresh,
}

/// Memoizes the bearer token of a token source until it expires.
#[derive(Debug, Clone)]
pub struct TokenCache {
    held: Option<CachedToken>,
}

impl TokenCache {
    /// The token the cache holds.
    pub closed spec fn held(&self) -> Option<CachedToken> {
        self.held
    }

    /// A cache that holds no token.
    pub fn new() -> (r: TokenCache)
        ensures
            r.held() is None,
    {
        TokenCache { held: None }
    }

    /// Serves the held token when it is valid at `now`, else asks for a fetch.
    pub fn lookup(&self, now: u64) -> (r: TokenLookup)
        ensures
            match served(self.held(), now) {
                Some(v) => r matches TokenLookup::Ready(s) && s@ == v,
                None => r is Refresh,
            },
    {
        match &self.held {
            Some(t) => if now < t.expires_at {
                TokenLookup::Ready(t.value.clone())
            } else {
                TokenLookup::Refresh
            },
            None => TokenLookup::Refresh,
        }
    }

    /// Takes what a fetch gave: a new token is stored and handed out; a
    /// failure is handed out and the held token stays as it was, unserved.
    pub fn complete(&mut self, fetched: Result<CachedToken, AuthError>) -> (r: Result<String, AuthError>)
        ensures
            final(self).held() == held_after_fetch(old(self).held(), fetched),
            match fetch_answer(fetched) {
                Ok(v) => r matches Ok(s) && s@ == v,
                Err(e) => r == Err::<String, AuthError>(e),
            },
    {
        match fetched {
            Ok(t) => {
                let value = t.value.clone();
                self.held = Some(t);
                Ok(value)
            },
            Err(e) => Err(e),
        }
    }
}

/// A second request at the same moment answers what the first one answered,
/// without a fetch, once the first one left a valid token in the cache.
pub proof fn lemma_repeated_request_is_cached(
    held: Option<CachedToken>,
    now: u64,
    first: Result<CachedToken, AuthError>,
    second: Result<CachedToken, AuthError>,
)
    requires
        token_request(held, now, first).1 is Ok,
        is_fresh(token_request(held, now, first).0, now),
    ensures
        served(token_request(held, now, first).0, now) is Some,
        token_request(token_request(held, now, first).0, now, second) == token_request(held, now, first),
{
}

/// A request that finds the held token expired asks for a fetch, and answers
/// the newly fetched token (or the failure), never the stale one.
pub proof fn lemma_expired_token_is_refetched(
    held: CachedToken,
    now: u64,
    fetched: Result<CachedToken, AuthError>,
)
    requires
        held.expires_at <= now,
    ensures
        served(Some(held), now) is None,
        token_request(Some(held), now, fetched) == (held_after_fetch(Some(held), fetched), fetch_answer(fetched)),
        fetched matches Ok(t) ==> token_request(Some(held), now, fetched) == (Some(t), Ok::<Seq<char>, AuthError>(t.value@)),
        fetched matches Err(e) ==> token_request(Some(held), now, fetched).1 == Err::<Seq<char>, AuthError>(e),
{
}

} // verus!
