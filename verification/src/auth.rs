//! The token cache: the one component of this library with real state.
//!
//! A [`TokenManager`] owns at most one cached [`Token`] and a fixed scope
//! set.  [`TokenManager::get_token`] serves the cached token while it is
//! valid; when the cache is empty or the token has expired, it reports that a
//! mint is needed, and the caller (who owns the credential source and the
//! clock) completes the round with [`TokenManager::complete_mint`].

use vstd::prelude::*;
use crate::error::AuthError;

verus! {

/// A bearer token: an opaque credential string plus an optional expiry
/// instant, in seconds since the Unix epoch.  Immutable once issued.
#[derive(Debug)]
pub struct Token {
    /// The credential string presented as `Authorization: Bearer <value>`.
    pub value: String,
    /// The instant at which the token stops being served, if any.
    pub expires_at: Option<u64>,
}

impl Token {
    /// Whether the token is expired at time `now`: an expiry instant is set
    /// and has been reached.  A token without an expiry never expires.
    pub open spec fn spec_has_expired(&self, now: u64) -> bool {
        match self.expires_at {
            Some(e) => e <= now,
            None => false,
        }
    }

    /// The expiry check; `now` is seconds since the Unix epoch.
    pub fn has_expired(&self, now: u64) -> (r: bool)
        ensures
            r == self.spec_has_expired(now),
    {
        match self.expires_at {
            Some(e) => e <= now,
            None => false,
        }
    }

    /// The credential string itself.
    pub fn as_str(&self) -> (r: &str)
        ensures
            r@ == self.value@,
    {
        self.value.as_str()
    }
}

impl Clone for Token {
    fn clone(&self) -> (r: Self)
        ensures
            r == *self,
    {
        Token { value: self.value.clone(), expires_at: self.expires_at }
    }
}

/// The token cache: zero or one cached [`Token`], the scope set fixed at
/// construction, and a count of the mints completed so far.
///
/// The cache is an explicit two-state machine over `token`: `None` (empty)
/// and `Some(t)` (cached).  [`TokenManager::get_token`] reads the state at a
/// given instant; the only transition is [`TokenManager::complete_mint`],
/// which replaces the cached token with a freshly minted one.
pub struct TokenManager {
    /// The cached token, if any.
    pub token: Option<Token>,
    /// The permission scopes a fresh token must be minted for.
    pub scopes: Vec<String>,
    /// How many mints have completed successfully on this cache.
    pub mint_count: u64,
}

impl TokenManager {
    /// What the cache serves at instant `now` without consulting the
    /// credential source: the cached token when present and unexpired,
    /// nothing otherwise.
    pub open spec fn spec_serves(&self, now: u64) -> Option<Token> {
        match self.token {
            Some(t) => if t.spec_has_expired(now) {
                None
            } else {
                Some(t)
            },
            None => None,
        }
    }

    /// A fresh cache for the given scope set: empty, with no mint performed.
    pub fn new(scopes: Vec<String>) -> (r: Self)
        ensures
            r.token is None,
            r.scopes == scopes,
            r.mint_count == 0,
    {
        TokenManager { token: None, scopes, mint_count: 0 }
    }

    /// Serve the cached token if it is present and unexpired at `now`.
    ///
    /// `None` means the credential source must be invoked; the caller mints
    /// a token for [`TokenManager::scopes`] and hands the outcome to
    /// [`TokenManager::complete_mint`].  A served token is never expired.
    pub fn get_token(&self, now: u64) -> (r: Option<Token>)
        ensures
            r == self.spec_serves(now),
            r matches Some(t) ==> !t.spec_has_expired(now),
    {
        match &self.token {
            Some(t) => {
                if t.has_expired(now) {
                    None
                } else {
                    Some(t.clone())
                }
            },
            None => None,
        }
    }

    /// `get_token` and `complete_mint` together implement one round of the
    /// cache model: when the cached token is servable the round neither
    /// invokes the credential source nor changes the cache, and when it is
    /// not, `get_token` serves nothing and leaves the mint to the caller.
    pub proof fn lemma_implements_round(self, e: CacheEvent)
        ensures
            !spec_mints(self.token, e) ==> {
                &&& self.spec_serves(e.now) == self.token
                &&& spec_round_result(self.token, e) == self.token
                &&& spec_round_state(self.token, e) == self.token
            },
            spec_mints(self.token, e) ==> self.spec_serves(e.now) is None,
    {
    }

    /// Record the outcome of one invocation of the credential source.
    ///
    /// A successful mint overwrites the cached token (the old one is
    /// replaced, never mutated) and is counted; the fresh token is returned
    /// to the caller as-is.  A failure leaves the cache exactly as it was
    /// and surfaces the error unmodified.
    pub fn complete_mint(&mut self, minted: Result<Token, AuthError>) -> (r: Result<
        Token,
        AuthError,
    >)
        requires
            old(self).mint_count < u64::MAX,
        ensures
            final(self).scopes == old(self).scopes,
            minted matches Ok(t) ==> {
                &&& final(self).token == Some(t)
                &&& final(self).mint_count == old(self).mint_count + 1
                &&& r == Ok::<Token, AuthError>(t)
            },
            minted matches Err(e) ==> {
                &&& final(self).token == old(self).token
                &&& final(self).mint_count == old(self).mint_count
                &&& r == Err::<Token, AuthError>(e)
            },
    {
        match minted {
            Ok(t) => {
                let fresh = t.clone();
                self.token = Some(t);
                self.mint_count = self.mint_count + 1;
                Ok(fresh)
            },
            Err(e) => Err(e),
        }
    }
}

/// One `get_token` round against the credential source, as the cache model
/// sees it: the instant of the call, and the token the source would mint
/// at that instant (`None` when the source fails).
pub struct CacheEvent {
    /// The instant of the round, in seconds since the Unix epoch.
    pub now: u64,
    /// What the credential source would answer, were it invoked.
    pub fresh: Option<Token>,
}

/// Whether a round at `e` invokes the credential source: the cache is
/// empty, or its token has expired at `e.now`.
pub open spec fn spec_mints(cache: Option<Token>, e: CacheEvent) -> bool {
    match cache {
        Some(t) => t.spec_has_expired(e.now),
        None => true,
    }
}

/// What a round at `e` returns to the caller: the cached token when it is
/// servable, the freshly minted outcome otherwise.
pub open spec fn spec_round_result(cache: Option<Token>, e: CacheEvent) -> Option<Token> {
    if spec_mints(cache, e) {
        e.fresh
    } else {
        cache
    }
}

/// The cache after a round at `e`: a successful mint overwrites it, a
/// failed mint and a served cache leave it unchanged.
pub open spec fn spec_round_state(cache: Option<Token>, e: CacheEvent) -> Option<Token> {
    if spec_mints(cache, e) {
        if e.fresh is Some {
            e.fresh
        } else {
            cache
        }
    } else {
        cache
    }
}

/// The cache after a sequence of rounds.
pub open spec fn spec_run(cache: Option<Token>, events: Seq<CacheEvent>) -> Option<Token>
    decreases events.len(),
{
    if events.len() == 0 {
        cache
    } else {
        spec_run(spec_round_state(cache, events[0]), events.drop_first())
    }
}

/// How many rounds of the sequence invoke the credential source.
pub open spec fn spec_mint_count(cache: Option<Token>, events: Seq<CacheEvent>) -> nat
    decreases events.len(),
{
    if events.len() == 0 {
        0
    } else {
        (if spec_mints(cache, events[0]) {
            1nat
        } else {
            0nat
        }) + spec_mint_count(spec_round_state(cache, events[0]), events.drop_first())
    }
}

/// While the cached token stays unexpired through every round, the
/// credential source is never invoked, every round returns that very
/// token, and the cache keeps it: caching is idempotent.
pub proof fn lemma_cached_token_reused(t: Token, events: Seq<CacheEvent>)
    requires
        forall|i: int|
            0 <= i < events.len() ==> !t.spec_has_expired((#[trigger] events[i]).now),
    ensures
        spec_mint_count(Some(t), events) == 0,
        spec_run(Some(t), events) == Some(t),
        forall|i: int|
            0 <= i < events.len() ==> spec_round_result(
                spec_run(Some(t), events.take(i)),
                #[trigger] events[i],
            ) == Some(t),
    decreases events.len(),
{
    if events.len() > 0 {
        let e0 = events[0];
        assert(!t.spec_has_expired(e0.now));
        assert(spec_round_state(Some(t), e0) == Some(t));
        let rest = events.drop_first();
        assert forall|i: int|
            0 <= i < rest.len() implies !t.spec_has_expired((#[trigger] rest[i]).now) by {
            assert(rest[i] == events[i + 1]);
        }
        lemma_cached_token_reused(t, rest);
    }
    assert forall|i: int|
        0 <= i < events.len() implies spec_round_result(
        spec_run(Some(t), events.take(i)),
        #[trigger] events[i],
    ) == Some(t) by {
        let prefix = events.take(i);
        assert forall|j: int|
            0 <= j < prefix.len() implies !t.spec_has_expired((#[trigger] prefix[j]).now) by {
            assert(prefix[j] == events[j]);
        }
        lemma_cached_token_reused(t, prefix);
        assert(spec_run(Some(t), prefix) == Some(t));
        assert(!spec_mints(Some(t), events[i]));
    }
}

/// Over any sequence of rounds whose first round mints `t` and during
/// which `t` never expires, the credential source is invoked exactly once
/// — at most once per expiry boundary — and the cache ends holding `t`.
pub proof fn lemma_at_most_one_mint(t: Token, events: Seq<CacheEvent>)
    requires
        events.len() > 0,
        events[0].fresh == Some(t),
        forall|i: int|
            0 <= i < events.len() ==> !t.spec_has_expired((#[trigger] events[i]).now),
    ensures
        spec_mint_count(None, events) == 1,
        spec_run(None, events) == Some(t),
{
    let e0 = events[0];
    assert(spec_mints(None, e0));
    assert(spec_round_state(None, e0) == Some(t));
    let rest = events.drop_first();
    assert forall|i: int|
        0 <= i < rest.len() implies !t.spec_has_expired((#[trigger] rest[i]).now) by {
        assert(rest[i] == events[i + 1]);
    }
    lemma_cached_token_reused(t, rest);
}

/// Once the cached token's expiry boundary has passed, the next round
/// invokes the credential source exactly once, and both the caller and the
/// cache get the new token.
pub proof fn lemma_expiry_remints(cached: Token, fresh: Token, e: CacheEvent)
    requires
        cached.spec_has_expired(e.now),
        e.fresh == Some(fresh),
    ensures
        spec_mints(Some(cached), e),
        spec_round_result(Some(cached), e) == Some(fresh),
        spec_round_state(Some(cached), e) == Some(fresh),
        spec_mint_count(Some(cached), seq![e]) == 1,
{
    assert(seq![e][0] == e);
    assert(seq![e].drop_first() =~= Seq::<CacheEvent>::empty());
    assert(spec_mint_count(spec_round_state(Some(cached), e), Seq::<CacheEvent>::empty()) == 0);
}

/// No round of any sequence ever returns an expired token, provided the
/// credential source only ever mints tokens that are unexpired at the
/// instant of the mint.
pub proof fn lemma_never_serves_expired(cache: Option<Token>, events: Seq<CacheEvent>)
    requires
        forall|i: int|
            0 <= i < events.len() ==> ((#[trigger] events[i]).fresh matches Some(f)
                ==> !f.spec_has_expired(events[i].now)),
    ensures
        forall|i: int|
            0 <= i < events.len() ==> (spec_round_result(
                spec_run(cache, events.take(i)),
                #[trigger] events[i],
            ) matches Some(t) ==> !t.spec_has_expired(events[i].now)),
{
    assert forall|i: int|
        0 <= i < events.len() implies (spec_round_result(
        spec_run(cache, events.take(i)),
        #[trigger] events[i],
    ) matches Some(t) ==> !t.spec_has_expired(events[i].now)) by {
        let s = spec_run(cache, events.take(i));
        let e = events[i];
        if spec_mints(s, e) {
            assert(spec_round_result(s, e) == e.fresh);
        } else {
            assert(spec_round_result(s, e) == s);
        }
    }
}

} // verus!
