//! Scoped-token cache with a single-flight refresh discipline.
//!
//! The cache owns the scoped token the proxy uses instead of signing every
//! object request. A caller polls the cache with the current time; a valid
//! cached token is reused, otherwise exactly one caller is told to fetch
//! while every other caller awaits that fetch. The host performs the
//! network work and reports back through [`complete_fetch`].

use vstd::prelude::*;

verus! {

/// A scoped access token: a backend-issued value granting time-limited
/// access without per-request signing.
#[derive(Debug, PartialEq, Eq)]
pub struct ScopedToken {
    /// The token value as the backend issued it.
    pub value: String,
    /// When the token was issued, in seconds.
    pub issued_at: u64,
    /// The hard expiry boundary, in seconds, if one is known.
    pub expires_at: Option<u64>,
}

impl ScopedToken {
    /// A token is valid at `now` while it has not reached its expiry
    /// boundary; a token without a known boundary never expires here.
    pub open spec fn valid_at(self, now: u64) -> bool {
        match self.expires_at {
            None => true,
            Some(e) => now < e,
        }
    }

    /// Check validity against the clock value the caller read.
    pub fn is_valid_at(&self, now: u64) -> (r: bool)
        ensures
            r == self.valid_at(now),
    {
        match self.expires_at {
            None => true,
            Some(e) => now < e,
        }
    }
}

impl Clone for ScopedToken {
    fn clone(&self) -> (r: Self)
        ensures
            r == *self,
    {
        ScopedToken {
            value: self.value.clone(),
            issued_at: self.issued_at,
            expires_at: self.expires_at,
        }
    }
}

/// The cache: at most one token, and at most one fetch in flight.
#[derive(Debug, PartialEq, Eq)]
pub struct SecretCache {
    /// The cached token, if any.
    pub token: Option<ScopedToken>,
    /// Whether a fetch is outstanding; while it is, no second fetch starts.
    pub fetch_in_flight: bool,
}

/// What one poll of the cache tells the caller to do.
#[derive(Debug, PartialEq, Eq)]
pub enum CacheAction {
    /// Use this token; it is valid at the polled time.
    Reuse(ScopedToken),
    /// The cache has nothing usable and no fetch is outstanding: this
    /// caller alone starts the fetch.
    BeginFetch,
    /// A fetch is already outstanding: await its completion, start none.
    AwaitFetch,
}

/// Whether a poll at `now` (with `force` requesting a refresh) hits the
/// cached token.
pub open spec fn cache_hit(c: SecretCache, now: u64, force: bool) -> bool {
    !force && c.token is Some && c.token->Some_0.valid_at(now)
}

/// The cache state after one poll: a miss with no outstanding fetch marks
/// one as in flight; everything else leaves the state unchanged.
pub open spec fn poll_state_spec(c: SecretCache, now: u64, force: bool) -> SecretCache {
    if cache_hit(c, now, force) || c.fetch_in_flight {
        c
    } else {
        SecretCache { token: c.token, fetch_in_flight: true }
    }
}

/// The action one poll yields.
pub open spec fn poll_action_spec(c: SecretCache, now: u64, force: bool) -> CacheAction {
    if cache_hit(c, now, force) {
        CacheAction::Reuse(c.token->Some_0)
    } else if c.fetch_in_flight {
        CacheAction::AwaitFetch
    } else {
        CacheAction::BeginFetch
    }
}

impl SecretCache {
    /// A cold cache: no token, no fetch in flight.
    pub fn new() -> (r: Self)
        ensures
            r.token is None,
            !r.fetch_in_flight,
    {
        SecretCache { token: None, fetch_in_flight: false }
    }

    /// Poll the cache at clock value `now`. A token past its expiry
    /// boundary is never reused: the poll demands a fetch instead.
    pub fn poll(&mut self, now: u64, force: bool) -> (a: CacheAction)
        ensures
            a == poll_action_spec(*old(self), now, force),
            *final(self) == poll_state_spec(*old(self), now, force),
            a matches CacheAction::Reuse(t) ==> t.valid_at(now) && old(self).token == Some(t),
            a == CacheAction::BeginFetch ==> final(self).fetch_in_flight,
    {
        if !force {
            if let Some(t) = &self.token {
                if t.is_valid_at(now) {
                    return CacheAction::Reuse(t.clone());
                }
            }
        }
        if self.fetch_in_flight {
            CacheAction::AwaitFetch
        } else {
            self.fetch_in_flight = true;
            CacheAction::BeginFetch
        }
    }

    /// Report the outcome of the one outstanding fetch. On success the
    /// token is stored and handed back; on failure the cached token is
    /// left unchanged and the failure propagates as `SecretUnavailable`.
    /// Either way the fetch is no longer in flight.
    pub fn complete_fetch(&mut self, outcome: Result<ScopedToken, String>) -> (r: Result<
        ScopedToken,
        SecretError,
    >)
        requires
            old(self).fetch_in_flight,
        ensures
            !final(self).fetch_in_flight,
            outcome matches Ok(t) ==> final(self).token == Some(t) && r == Ok::<
                ScopedToken,
                SecretError,
            >(t),
            outcome matches Err(e) ==> final(self).token == old(self).token && r == Err::<
                ScopedToken,
                SecretError,
            >(SecretError::SecretUnavailable(e)),
    {
        self.fetch_in_flight = false;
        match outcome {
            Ok(t) => {
                self.token = Some(t.clone());
                Ok(t)
            },
            Err(e) => Err(SecretError::SecretUnavailable(e)),
        }
    }
}

/// Why no scoped token could be served.
#[derive(Debug, PartialEq, Eq)]
pub enum SecretError {
    /// The signed fetch to the secret endpoint failed; the message
    /// describes the failure and the cache was left unchanged.
    SecretUnavailable(String),
}

/// The state after a sequence of polls, each given as a clock value and a
/// force flag, with no fetch completing in between.
pub open spec fn polls_state(c: SecretCache, inputs: Seq<(u64, bool)>) -> SecretCache
    decreases inputs.len(),
{
    if inputs.len() == 0 {
        c
    } else {
        polls_state(poll_state_spec(c, inputs[0].0, inputs[0].1), inputs.drop_first())
    }
}

/// The actions a sequence of polls yields, with no fetch completing in
/// between.
pub open spec fn polls_actions(c: SecretCache, inputs: Seq<(u64, bool)>) -> Seq<CacheAction>
    decreases inputs.len(),
{
    if inputs.len() == 0 {
        Seq::empty()
    } else {
        seq![poll_action_spec(c, inputs[0].0, inputs[0].1)] + polls_actions(
            poll_state_spec(c, inputs[0].0, inputs[0].1),
            inputs.drop_first(),
        )
    }
}

/// Once a fetch is in flight, further polls keep it in flight and start no
/// second fetch, however many callers poll and whatever they ask.
pub proof fn lemma_no_second_fetch(c: SecretCache, inputs: Seq<(u64, bool)>)
    requires
        c.fetch_in_flight,
    ensures
        polls_state(c, inputs).fetch_in_flight,
        forall|i: int|
            0 <= i < polls_actions(c, inputs).len() ==> polls_actions(c, inputs)[i]
                != CacheAction::BeginFetch,
    decreases inputs.len(),
{
    if inputs.len() > 0 {
        let c1 = poll_state_spec(c, inputs[0].0, inputs[0].1);
        lemma_no_second_fetch(c1, inputs.drop_first());
        assert forall|i: int| 0 <= i < polls_actions(c, inputs).len() implies polls_actions(
            c,
            inputs,
        )[i] != CacheAction::BeginFetch by {
            if i > 0 {
                assert(polls_actions(c, inputs)[i] == polls_actions(c1, inputs.drop_first())[i
                    - 1]);
            }
        }
    }
}

/// The single-flight discipline on a cold cache: however many callers race
/// on it, the first poll alone begins a fetch and every later poll awaits
/// it; at most one outbound fetch is ever issued.
pub proof fn lemma_singleflight_cold(c: SecretCache, inputs: Seq<(u64, bool)>)
    requires
        c.token is None,
        !c.fetch_in_flight,
        inputs.len() > 0,
    ensures
        polls_actions(c, inputs)[0] == CacheAction::BeginFetch,
        forall|i: int|
            1 <= i < polls_actions(c, inputs).len() ==> polls_actions(c, inputs)[i]
                == CacheAction::AwaitFetch,
{
    let c1 = poll_state_spec(c, inputs[0].0, inputs[0].1);
    lemma_all_await(c1, inputs.drop_first());
    assert forall|i: int| 1 <= i < polls_actions(c, inputs).len() implies polls_actions(c, inputs)[i]
        == CacheAction::AwaitFetch by {
        assert(polls_actions(c, inputs)[i] == polls_actions(c1, inputs.drop_first())[i - 1]);
    }
}

/// With no token cached and a fetch in flight, every poll awaits.
proof fn lemma_all_await(c: SecretCache, inputs: Seq<(u64, bool)>)
    requires
        c.token is None,
        c.fetch_in_flight,
    ensures
        forall|i: int|
            0 <= i < polls_actions(c, inputs).len() ==> polls_actions(c, inputs)[i]
                == CacheAction::AwaitFetch,
    decreases inputs.len(),
{
    if inputs.len() > 0 {
        let c1 = poll_state_spec(c, inputs[0].0, inputs[0].1);
        lemma_all_await(c1, inputs.drop_first());
        assert forall|i: int| 0 <= i < polls_actions(c, inputs).len() implies polls_actions(
            c,
            inputs,
        )[i] == CacheAction::AwaitFetch by {
            if i > 0 {
                assert(polls_actions(c, inputs)[i] == polls_actions(c1, inputs.drop_first())[i
                    - 1]);
            }
        }
    }
}

/// All callers racing on one cold cache receive the same token: every poll
/// after a successful fetch that hits the cache returns exactly the token
/// that fetch stored.
pub proof fn lemma_all_callers_same_token(c: SecretCache, t: ScopedToken, now: u64, force: bool)
    requires
        c.token == Some(t),
        cache_hit(c, now, force),
    ensures
        poll_action_spec(c, now, force) == CacheAction::Reuse(t),
{
}

} // verus!
