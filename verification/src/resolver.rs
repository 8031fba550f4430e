//! The resolver: the cache in front of a chain. There are two forms. The
//! [`Resolver`] owns a chain and resolves in one call. The [`ResolverState`]
//! holds only the shared state, the cache slot and the refresh flag, and
//! decides for callers that do the fetching themselves: of the callers that
//! miss the cache together, one fetches and the others wait with a ticket,
//! which they redeem for the result of that one fetch.

use vstd::prelude::*;
use crate::cache::{CacheView, CredentialCache, DEFAULT_SAFETY_MARGIN};
use crate::chain::{ChainedProvider, Provider};
use crate::credential::{Credential, CredentialView};
use crate::error::{ProviderError, ProviderErrorView};
use crate::provider::{clone_outcome, outcome_view, OutcomeView};
use crate::walk::ChainReport;

verus! {

/// A [`Decision`] as a mathematical value.
pub enum DecisionView {
    Serve(CredentialView),
    Refresh,
    Wait(nat),
}

/// What a caller that asked for a credential does next.
#[derive(Debug)]
pub enum Decision {
    /// The cache holds a fresh credential: use this copy. No provider is
    /// asked.
    Serve(Credential),
    /// The cache gives nothing and nobody is fetching: this caller fetches,
    /// by resolving the chain once, and then reports the result with
    /// [`ResolverState::complete`].
    Refresh,
    /// The cache gives nothing and a fetch is under way: wait until it has
    /// ended, then redeem this ticket with [`ResolverState::collect`].
    Wait(u64),
}

impl View for Decision {
    type V = DecisionView;

    open spec fn view(&self) -> DecisionView {
        match self {
            Decision::Serve(credential) => DecisionView::Serve(credential@),
            Decision::Refresh => DecisionView::Refresh,
            Decision::Wait(ticket) => DecisionView::Wait(*ticket as nat),
        }
    }
}

/// A [`ResolverState`] as a mathematical value.
pub struct ResolverStateView {
    pub cache: CacheView,
    pub refreshing: bool,
    /// The number of the fetch that is under way or comes next. It counts the
    /// fetches that have ended, and starts over after `u64::MAX`.
    pub round: nat,
    /// The result of the fetch that ended last.
    pub last: Option<OutcomeView>,
}

/// The round after `round`.
pub open spec fn next_round(round: nat) -> nat {
    if round >= u64::MAX {
        0
    } else {
        round + 1
    }
}

impl ResolverStateView {
    /// The state at start-up: nothing cached, nobody fetching.
    pub open spec fn cold(safety_margin: nat) -> ResolverStateView {
        ResolverStateView {
            cache: CacheView::empty(safety_margin),
            refreshing: false,
            round: 0,
            last: None,
        }
    }

    /// The answer to a request at time `now`.
    pub open spec fn decide(self, now: nat) -> DecisionView {
        match self.cache.hit(now) {
            Some(credential) => DecisionView::Serve(credential),
            None => if self.refreshing {
                DecisionView::Wait(self.round)
            } else {
                DecisionView::Refresh
            },
        }
    }

    /// The state after a request at time `now`: a request that the cache
    /// cannot serve leaves a fetch under way.
    pub open spec fn after_request(self, now: nat) -> ResolverStateView {
        if self.cache.hit(now) is None {
            ResolverStateView { refreshing: true, ..self }
        } else {
            self
        }
    }

    /// The state after the fetch ended with `outcome` at time `now`. A
    /// credential replaces the slot; an error leaves the slot as it was.
    /// Either way no fetch is under way any more, the result is kept for the
    /// callers that wait, and the next round begins.
    pub open spec fn after_completion(self, outcome: OutcomeView, now: nat) -> ResolverStateView {
        ResolverStateView {
            cache: self.cache.refreshed(outcome, now),
            refreshing: false,
            round: next_round(self.round),
            last: Some(outcome),
        }
    }

    /// The state after a fetch was given up: as before, but no fetch is under
    /// way. The round has not ended, so no ticket can be redeemed for it.
    pub open spec fn after_abandon(self) -> ResolverStateView {
        ResolverStateView { refreshing: false, ..self }
    }

    /// What a caller that holds `ticket` receives: the result of the fetch
    /// that ended last, once the round of the ticket is over.
    pub open spec fn collect(self, ticket: nat) -> Option<OutcomeView> {
        if self.round != ticket {
            self.last
        } else {
            None
        }
    }

    /// The answers to a series of requests at the given times, with no
    /// completion in between.
    pub open spec fn decisions(self, times: Seq<nat>) -> Seq<DecisionView>
        decreases times.len(),
    {
        if times.len() == 0 {
            Seq::<DecisionView>::empty()
        } else {
            seq![self.decide(times[0])] + self.after_request(times[0]).decisions(
                times.drop_first(),
            )
        }
    }

    /// The state after a series of requests at the given times, with no
    /// completion in between.
    pub open spec fn after_requests(self, times: Seq<nat>) -> ResolverStateView
        decreases times.len(),
    {
        if times.len() == 0 {
            self
        } else {
            self.after_request(times[0]).after_requests(times.drop_first())
        }
    }
}

/// The state that the callers of one resolver share: the cache slot and the
/// flag that says a fetch is under way. Whoever holds it exclusively for the
/// length of one call sees and leaves it whole.
#[derive(Debug)]
pub struct ResolverState {
    cache: CredentialCache,
    refreshing: bool,
    round: u64,
    last: Option<Result<Credential, ProviderError>>,
}

impl View for ResolverState {
    type V = ResolverStateView;

    closed spec fn view(&self) -> ResolverStateView {
        ResolverStateView {
            cache: self.cache@,
            refreshing: self.refreshing,
            round: self.round as nat,
            last: match self.last {
                Some(outcome) => Some(outcome_view(outcome)),
                None => None,
            },
        }
    }
}

impl ResolverState {
    /// The state at start-up, with the given safety margin in seconds.
    pub fn new(safety_margin: u64) -> (state: ResolverState)
        ensures
            state@ == ResolverStateView::cold(safety_margin as nat),
    {
        ResolverState {
            cache: CredentialCache::new(safety_margin),
            refreshing: false,
            round: 0,
            last: None,
        }
    }

    /// The cache slot.
    pub fn cache(&self) -> (cache: &CredentialCache)
        ensures
            cache@ == self@.cache,
    {
        &self.cache
    }

    /// Whether a fetch is under way.
    pub fn is_refreshing(&self) -> (refreshing: bool)
        ensures
            refreshing == self@.refreshing,
    {
        self.refreshing
    }

    /// Answers a request at time `now`.
    pub fn request(&mut self, now: u64) -> (decision: Decision)
        ensures
            decision@ == old(self)@.decide(now as nat),
            final(self)@ == old(self)@.after_request(now as nat),
    {
        match self.cache.lookup(now) {
            Some(credential) => Decision::Serve(credential),
            None => {
                if self.refreshing {
                    Decision::Wait(self.round)
                } else {
                    self.refreshing = true;
                    Decision::Refresh
                }
            },
        }
    }

    /// Ends the fetch with its result, obtained at time `now`, and hands the
    /// result back for the caller that fetched. A credential replaces the
    /// cache slot; an error leaves the slot untouched, and the next request
    /// starts over at the head of the chain. The callers that wait redeem
    /// their tickets for copies of the same result.
    pub fn complete(&mut self, outcome: Result<Credential, ProviderError>, now: u64) -> (shared:
        Result<Credential, ProviderError>)
        ensures
            final(self)@ == old(self)@.after_completion(outcome_view(outcome), now as nat),
            outcome_view(shared) == outcome_view(outcome),
    {
        self.refreshing = false;
        self.round = if self.round == u64::MAX {
            0
        } else {
            self.round + 1
        };
        match &outcome {
            Ok(credential) => {
                self.cache.store(credential.clone(), now);
            },
            Err(_) => {},
        }
        self.last = Some(clone_outcome(&outcome));
        outcome
    }

    /// Gives the fetch up without a result, as when the caller that fetched
    /// was cancelled. The cache slot is untouched. A caller that waited finds
    /// its ticket unredeemed and asks again with [`ResolverState::request`].
    pub fn abandon(&mut self)
        ensures
            final(self)@ == old(self)@.after_abandon(),
    {
        self.refreshing = false;
    }

    /// Redeems a ticket: a copy of the result of the fetch that ended last,
    /// once the round in which the ticket was given is over; `None` before.
    pub fn collect(&self, ticket: u64) -> (shared: Option<Result<Credential, ProviderError>>)
        ensures
            match shared {
                Some(outcome) => self@.collect(ticket as nat) == Some(outcome_view(outcome)),
                None => self@.collect(ticket as nat) is None,
            },
    {
        if self.round != ticket {
            match &self.last {
                Some(outcome) => Some(clone_outcome(outcome)),
                None => None,
            }
        } else {
            None
        }
    }
}

impl Default for ResolverState {
    fn default() -> (state: ResolverState)
        ensures
            state@ == ResolverStateView::cold(DEFAULT_SAFETY_MARGIN as nat),
    {
        ResolverState::new(DEFAULT_SAFETY_MARGIN)
    }
}

/// What one call of [`Resolver::resolve_traced`] did.
#[derive(Debug)]
pub struct Resolution {
    /// The credential, or why there is none.
    pub outcome: Result<Credential, ProviderError>,
    /// The report of the chain, if the chain was asked; `None` where the
    /// cache served the credential and no provider was asked.
    pub report: Option<ChainReport>,
}

/// A chain with a cache in front of it.
pub struct Resolver<F: Fn() -> Result<Credential, String> + Send + Sync> {
    chain: ChainedProvider<F>,
    cache: CredentialCache,
}

impl<F: Fn() -> Result<Credential, String> + Send + Sync> Resolver<F> {
    /// The chain behind the cache.
    pub closed spec fn chain(self) -> ChainedProvider<F> {
        self.chain
    }

    /// The cache.
    pub closed spec fn cache(self) -> CacheView {
        self.cache@
    }

    /// A resolver over `chain` with an empty cache.
    pub fn new(chain: ChainedProvider<F>, safety_margin: u64) -> (resolver: Resolver<F>)
        ensures
            resolver.chain() == chain,
            resolver.cache() == CacheView::empty(safety_margin as nat),
    {
        Resolver { chain, cache: CredentialCache::new(safety_margin) }
    }

    /// A resolver over the chain of `links`. Without links there is no
    /// resolver: the mistake shows here, not at the first resolution.
    pub fn from_links(links: Vec<Provider<F>>, safety_margin: u64) -> (built: Result<
        Resolver<F>,
        ProviderError,
    >)
        ensures
            links.len() == 0 <==> built is Err,
            built matches Err(error) ==> error@ == ProviderErrorView::EmptyChain,
            built matches Ok(resolver) ==> resolver.chain().links() == links@ && resolver.cache()
                == CacheView::empty(safety_margin as nat),
    {
        match ChainedProvider::new(links) {
            Ok(chain) => Ok(Resolver::new(chain, safety_margin)),
            Err(error) => Err(error),
        }
    }

    /// The cached credential, fresh or not.
    pub fn cached(&self) -> (credential: Option<&Credential>)
        ensures
            match credential {
                Some(c) => self.cache().slot is Some && self.cache().slot.unwrap().credential
                    == c@,
                None => self.cache().slot is None,
            },
    {
        self.cache.cached()
    }

    /// Resolves at time `now` and says how. Where the cache holds a fresh
    /// credential, that credential is returned, nothing changes and no
    /// provider is asked. Otherwise the chain is resolved once: its credential
    /// replaces the cache slot and is returned, or its error is returned and
    /// the slot stays as it was.
    pub fn resolve_traced(&mut self, now: u64) -> (resolution: Resolution)
        ensures
            final(self).chain() == old(self).chain(),
            match old(self).cache().hit(now as nat) {
                Some(credential) => {
                    &&& resolution.report is None
                    &&& outcome_view(resolution.outcome) == Ok::<
                        CredentialView,
                        ProviderErrorView,
                    >(credential)
                    &&& final(self).cache() == old(self).cache()
                },
                None => {
                    &&& resolution.report matches Some(report)
                    &&& old(self).chain().may_report(report@)
                    &&& outcome_view(resolution.outcome) == report@.outcome()
                    &&& final(self).cache() == old(self).cache().refreshed(
                        report@.outcome(),
                        now as nat,
                    )
                },
            },
    {
        match self.cache.lookup(now) {
            Some(credential) => Resolution { outcome: Ok(credential), report: None },
            None => {
                let report = self.chain.provide_report();
                let outcome = report.outcome();
                match &outcome {
                    Ok(credential) => {
                        self.cache.store(credential.clone(), now);
                    },
                    Err(_) => {},
                }
                Resolution { outcome, report: Some(report) }
            },
        }
    }

    /// Resolves at time `now`: the fresh cached credential if there is one,
    /// else what the chain gives.
    pub fn resolve(&mut self, now: u64) -> (outcome: Result<Credential, ProviderError>)
        ensures
            final(self).chain() == old(self).chain(),
            old(self).cache().hit(now as nat) is None ==> old(self).chain().may_yield(
                outcome_view(outcome),
            ),
            outcome_view(outcome) == old(self).cache().resolved(outcome_view(outcome), now as nat),
            final(self).cache() == old(self).cache().after_resolution(
                outcome_view(outcome),
                now as nat,
            ),
    {
        self.resolve_traced(now).outcome
    }
}

/// While the cached credential is fresh, every request is served the same
/// credential, the state does not change, and no fetch is asked for.
pub proof fn lemma_fresh_requests_are_idempotent(state: ResolverStateView, first: nat, second: nat)
    requires
        state.cache.hit(first) is Some,
        state.cache.hit(second) is Some,
    ensures
        state.decide(first) == state.decide(second),
        state.decide(first) == DecisionView::Serve(state.cache.slot.unwrap().credential),
        state.after_request(first) == state,
        state.after_request(first).decide(second) == state.decide(first),
{
}

/// After a fetch that gave `credential` at time `at`, a request at any time
/// at which that credential is fresh is served it without another fetch,
/// whatever the state was before.
pub proof fn lemma_one_fetch_serves_later_requests(
    state: ResolverStateView,
    credential: CredentialView,
    at: nat,
    now: nat,
)
    requires
        credential.fresh_at(now, state.cache.safety_margin),
    ensures
        state.after_completion(Ok(credential), at).decide(now) == DecisionView::Serve(credential),
{
}

/// With a credential cached that expires at `expires_at`, and no fetch under
/// way, a request at `now` asks for a fetch exactly from `expires_at` less
/// the safety margin on; before that it is served from the cache.
pub proof fn lemma_refresh_exactly_within_margin(
    state: ResolverStateView,
    expires_at: nat,
    now: nat,
)
    requires
        !state.refreshing,
        state.cache.slot is Some,
        state.cache.slot.unwrap().credential.expires_at == Some(expires_at),
    ensures
        state.decide(now) == DecisionView::Refresh <==> now + state.cache.safety_margin
            >= expires_at,
        state.decide(now) == DecisionView::Serve(state.cache.slot.unwrap().credential) <==> now
            + state.cache.safety_margin < expires_at,
{
}

/// Requests that meet an empty cache together share one fetch: of any number
/// of requests that arrive before the fetch ends, the first is told to fetch
/// and every other one is told to wait, with a ticket for that fetch.
pub proof fn lemma_cold_requests_coalesce(safety_margin: nat, times: Seq<nat>)
    requires
        times.len() > 0,
    ensures
        ResolverStateView::cold(safety_margin).decisions(times).len() == times.len(),
        ResolverStateView::cold(safety_margin).decisions(times)[0] == DecisionView::Refresh,
        forall|i: int|
            1 <= i < times.len() ==> #[trigger] ResolverStateView::cold(safety_margin).decisions(
                times,
            )[i] == DecisionView::Wait(0),
        ResolverStateView::cold(safety_margin).after_requests(times)
            == ResolverStateView::cold(safety_margin).after_request(times[0]),
        ResolverStateView::cold(safety_margin).after_requests(times).refreshing,
{
    let cold = ResolverStateView::cold(safety_margin);
    let busy = cold.after_request(times[0]);
    lemma_waiting_while_refreshing(busy, times.drop_first());
    let rest = busy.decisions(times.drop_first());
    assert forall|i: int| 1 <= i < times.len() implies #[trigger] cold.decisions(times)[i]
        == DecisionView::Wait(0) by {
        assert(cold.decisions(times)[i] == rest[i - 1]);
    }
}

/// While a fetch is under way over an empty cache, every request is told to
/// wait for that fetch, and the state stays as it is.
pub proof fn lemma_waiting_while_refreshing(state: ResolverStateView, times: Seq<nat>)
    requires
        state.refreshing,
        state.cache.slot is None,
    ensures
        state.decisions(times).len() == times.len(),
        forall|i: int|
            0 <= i < times.len() ==> #[trigger] state.decisions(times)[i] == DecisionView::Wait(
                state.round,
            ),
        state.after_requests(times) == state,
    decreases times.len(),
{
    if times.len() > 0 {
        lemma_waiting_while_refreshing(state, times.drop_first());
        let rest = state.decisions(times.drop_first());
        assert forall|i: int| 0 <= i < times.len() implies #[trigger] state.decisions(times)[i]
            == DecisionView::Wait(state.round) by {
            if i > 0 {
                assert(state.decisions(times)[i] == rest[i - 1]);
            }
        }
    }
}

/// A ticket given during a fetch cannot be redeemed while the fetch is under
/// way. Once the fetch has ended, the ticket is redeemed for the result of
/// that very fetch, a credential or an error alike: every caller that waited
/// receives what the caller that fetched received.
pub proof fn lemma_waiters_receive_the_shared_outcome(
    state: ResolverStateView,
    outcome: OutcomeView,
    at: nat,
)
    requires
        state.round <= u64::MAX,
    ensures
        state.collect(state.round) is None,
        state.after_completion(outcome, at).collect(state.round) == Some(outcome),
{
}

/// Any number of callers ask while the cache is empty, and then the one fetch
/// ends with `outcome`. Exactly the first caller was told to fetch. Every
/// other caller was told to wait, and the ticket it was given is redeemed for
/// `outcome` itself: all callers end with the same result, a credential or an
/// error alike.
pub proof fn lemma_coalesced_callers_share_one_result(
    safety_margin: nat,
    times: Seq<nat>,
    outcome: OutcomeView,
    at: nat,
)
    requires
        times.len() > 0,
    ensures
        ResolverStateView::cold(safety_margin).decisions(times).len() == times.len(),
        ResolverStateView::cold(safety_margin).decisions(times)[0] == DecisionView::Refresh,
        forall|i: int|
            1 <= i < times.len() ==> {
                &&& #[trigger] ResolverStateView::cold(safety_margin).decisions(times)[i]
                    matches DecisionView::Wait(ticket)
                &&& ResolverStateView::cold(safety_margin).after_requests(times).after_completion(
                    outcome,
                    at,
                ).collect(ticket) == Some(outcome)
            },
{
    lemma_cold_requests_coalesce(safety_margin, times);
}

/// The state after a shared fetch does not depend on how many callers asked
/// while the cache was empty: it is the state that one request and the
/// completion of its fetch leave.
pub proof fn lemma_coalesced_round_leaves_one_state(
    safety_margin: nat,
    times: Seq<nat>,
    outcome: OutcomeView,
    at: nat,
)
    requires
        times.len() > 0,
    ensures
        ResolverStateView::cold(safety_margin).after_requests(times).after_completion(outcome, at)
            == ResolverStateView::cold(safety_margin).after_request(times[0]).after_completion(
            outcome,
            at,
        ),
{
    lemma_cold_requests_coalesce(safety_margin, times);
}

/// A failed fetch poisons nothing: the cache slot is as it was before, no
/// fetch is left under way, and a request that the cache cannot serve is told
/// to fetch again.
pub proof fn lemma_failure_does_not_poison(
    state: ResolverStateView,
    error: ProviderErrorView,
    at: nat,
    now: nat,
)
    ensures
        state.after_completion(Err(error), at).cache == state.cache,
        !state.after_completion(Err(error), at).refreshing,
        state.cache.hit(now) is None ==> state.after_completion(Err(error), at).decide(now)
            == DecisionView::Refresh,
{
}

} // verus!
