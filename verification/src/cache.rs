//! The cache slot of a resolver: the last credential fetched, when it was
//! fetched, and the rule that decides whether it may still be handed out.

use vstd::prelude::*;
use crate::credential::{Credential, CredentialView};
use crate::error::ProviderErrorView;
use crate::provider::OutcomeView;

verus! {

/// The safety margin used where none is configured, in seconds.
pub const DEFAULT_SAFETY_MARGIN: u64 = 30;

/// A cached credential and the time at which it was fetched.
pub struct CacheEntryView {
    pub credential: CredentialView,
    pub fetched_at: nat,
}

/// A [`CredentialCache`] as a mathematical value.
pub struct CacheView {
    pub safety_margin: nat,
    pub slot: Option<CacheEntryView>,
}

impl CacheView {
    /// The cache with nothing in its slot.
    pub open spec fn empty(safety_margin: nat) -> CacheView {
        CacheView { safety_margin, slot: None }
    }

    /// What the cache hands out at time `now` without asking any provider:
    /// the cached credential if there is one and it is fresh, that is, it has
    /// no expiration or `now` is more than the safety margin before it.
    pub open spec fn hit(self, now: nat) -> Option<CredentialView> {
        match self.slot {
            Some(entry) => if entry.credential.fresh_at(now, self.safety_margin) {
                Some(entry.credential)
            } else {
                None
            },
            None => None,
        }
    }

    /// The cache after `credential`, fetched at `now`, has replaced the slot.
    pub open spec fn stored(self, credential: CredentialView, now: nat) -> CacheView {
        CacheView {
            safety_margin: self.safety_margin,
            slot: Some(CacheEntryView { credential, fetched_at: now }),
        }
    }

    /// The cache after a fetch ended with `fetched` at `now`: a credential
    /// replaces the slot, an error leaves the cache as it was.
    pub open spec fn refreshed(self, fetched: OutcomeView, now: nat) -> CacheView {
        match fetched {
            Ok(credential) => self.stored(credential, now),
            Err(_) => self,
        }
    }

    /// What a resolution at `now` returns, where `fetched` is what the chain
    /// gives if it is asked: the fresh cached credential, else `fetched`.
    pub open spec fn resolved(self, fetched: OutcomeView, now: nat) -> OutcomeView {
        match self.hit(now) {
            Some(credential) => Ok(credential),
            None => fetched,
        }
    }

    /// The cache that a resolution at `now` leaves behind.
    pub open spec fn after_resolution(self, fetched: OutcomeView, now: nat) -> CacheView {
        match self.hit(now) {
            Some(_) => self,
            None => self.refreshed(fetched, now),
        }
    }
}

#[derive(Debug)]
struct CacheEntry {
    credential: Credential,
    fetched_at: u64,
}

/// One cache slot with its safety margin. The slot is replaced whole or not
/// at all.
#[derive(Debug)]
pub struct CredentialCache {
    safety_margin: u64,
    slot: Option<CacheEntry>,
}

impl View for CredentialCache {
    type V = CacheView;

    closed spec fn view(&self) -> CacheView {
        CacheView {
            safety_margin: self.safety_margin as nat,
            slot: match self.slot {
                Some(entry) => Some(
                    CacheEntryView {
                        credential: entry.credential@,
                        fetched_at: entry.fetched_at as nat,
                    },
                ),
                None => None,
            },
        }
    }
}

impl CredentialCache {
    /// An empty cache that keeps `safety_margin` seconds clear of each
    /// expiration.
    pub fn new(safety_margin: u64) -> (cache: CredentialCache)
        ensures
            cache@ == CacheView::empty(safety_margin as nat),
    {
        CredentialCache { safety_margin, slot: None }
    }

    /// The safety margin in seconds.
    pub fn safety_margin(&self) -> (margin: u64)
        ensures
            margin == self@.safety_margin,
    {
        self.safety_margin
    }

    /// The credential in the slot, fresh or not.
    pub fn cached(&self) -> (credential: Option<&Credential>)
        ensures
            match credential {
                Some(c) => self@.slot is Some && self@.slot.unwrap().credential == c@,
                None => self@.slot is None,
            },
    {
        match &self.slot {
            Some(entry) => Some(&entry.credential),
            None => None,
        }
    }

    /// When the credential in the slot was fetched.
    pub fn fetched_at(&self) -> (time: Option<u64>)
        ensures
            match time {
                Some(t) => self@.slot is Some && self@.slot.unwrap().fetched_at == t,
                None => self@.slot is None,
            },
    {
        match &self.slot {
            Some(entry) => Some(entry.fetched_at),
            None => None,
        }
    }

    /// A copy of the cached credential if it may be handed out at `now`.
    pub fn lookup(&self, now: u64) -> (found: Option<Credential>)
        ensures
            match found {
                Some(credential) => self@.hit(now as nat) == Some(credential@),
                None => self@.hit(now as nat) is None,
            },
    {
        match &self.slot {
            Some(entry) => {
                if entry.credential.is_fresh(now, self.safety_margin) {
                    Some(entry.credential.clone())
                } else {
                    None
                }
            },
            None => None,
        }
    }

    /// Replaces the slot with `credential`, fetched at `now`.
    pub fn store(&mut self, credential: Credential, now: u64)
        ensures
            final(self)@ == old(self)@.stored(credential@, now as nat),
    {
        self.slot = Some(CacheEntry { credential, fetched_at: now });
    }
}

impl Default for CredentialCache {
    fn default() -> (cache: CredentialCache)
        ensures
            cache@ == CacheView::empty(DEFAULT_SAFETY_MARGIN as nat),
    {
        CredentialCache::new(DEFAULT_SAFETY_MARGIN)
    }
}

/// A cached credential that expires at `expires_at` is handed out at `now`
/// exactly while `now` is more than the safety margin before `expires_at`;
/// from `expires_at - safety_margin` on, the cache gives nothing and a fresh
/// fetch is due.
pub proof fn lemma_expiration_boundary(cache: CacheView, expires_at: nat, now: nat)
    requires
        cache.slot is Some,
        cache.slot.unwrap().credential.expires_at == Some(expires_at),
    ensures
        now + cache.safety_margin < expires_at ==> cache.hit(now) == Some(
            cache.slot.unwrap().credential,
        ),
        now + cache.safety_margin >= expires_at ==> cache.hit(now) is None,
{
}

/// A cached credential without expiration is handed out at every time.
pub proof fn lemma_no_expiration_always_hits(cache: CacheView, now: nat)
    requires
        cache.slot is Some,
        cache.slot.unwrap().credential.expires_at is None,
    ensures
        cache.hit(now) == Some(cache.slot.unwrap().credential),
{
}

/// Two resolutions in succession: where the first returns a credential that
/// is still fresh at the time of the second, the second returns the same
/// credential from the cache, whatever the chain would give then, and leaves
/// the cache as the first left it. Of the two, at most the first asks the
/// chain.
pub proof fn lemma_resolve_twice_while_fresh(
    cache: CacheView,
    fetched: OutcomeView,
    first: nat,
    later_fetched: OutcomeView,
    second: nat,
)
    requires
        cache.resolved(fetched, first) is Ok,
        cache.resolved(fetched, first)->Ok_0.fresh_at(second, cache.safety_margin),
    ensures
        cache.after_resolution(fetched, first).hit(second) is Some,
        cache.after_resolution(fetched, first).resolved(later_fetched, second) == cache.resolved(
            fetched,
            first,
        ),
        cache.after_resolution(fetched, first).after_resolution(later_fetched, second)
            == cache.after_resolution(fetched, first),
{
}

/// A resolution that fails changes nothing in the cache.
pub proof fn lemma_failed_resolution_keeps_cache(
    cache: CacheView,
    error: ProviderErrorView,
    now: nat,
)
    ensures
        cache.after_resolution(Err(error), now) == cache,
{
}

/// What has just been stored is handed out for as long as it is fresh, and
/// only that long.
pub proof fn lemma_stored_then_hit(cache: CacheView, credential: CredentialView, at: nat, now: nat)
    ensures
        cache.stored(credential, at).hit(now) == if credential.fresh_at(now, cache.safety_margin) {
            Some(credential)
        } else {
            None
        },
{
}

} // verus!
