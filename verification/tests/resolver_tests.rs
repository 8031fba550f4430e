use std::sync::atomic::{AtomicU64, AtomicUsize, Ordering};
use std::sync::Arc;

use credential_chain::{
    Credential, Decision, FunctionProvider, Provider, ProviderError, Resolver, ResolverState,
    StaticProvider, DEFAULT_SAFETY_MARGIN,
};

type Operation = Box<dyn Fn() -> Result<Credential, String> + Send + Sync>;

fn cred(issuer: &str, expires_at: Option<u64>) -> Credential {
    Credential::new("AKIA...".to_string(), "secret1".to_string(), None, expires_at, issuer.to_string())
}

fn fixed(credential: Credential) -> Provider<Operation> {
    Provider::Static(StaticProvider::new(credential))
}

fn failing(message: &'static str) -> Provider<Operation> {
    let operation: Operation = Box::new(move || Err(message.to_string()));
    Provider::Function(FunctionProvider::new(operation))
}

fn counted(counter: &Arc<AtomicUsize>, result: Result<Credential, String>) -> Provider<Operation> {
    let seen = counter.clone();
    let operation: Operation = Box::new(move || {
        seen.fetch_add(1, Ordering::SeqCst);
        result.clone()
    });
    Provider::Function(FunctionProvider::new(operation))
}

fn resolver(links: Vec<Provider<Operation>>, margin: u64) -> Resolver<Operation> {
    match Resolver::from_links(links, margin) {
        Ok(resolver) => resolver,
        Err(e) => panic!("no resolver: {}", e.describe()),
    }
}

fn served(decision: Decision) -> Credential {
    match decision {
        Decision::Serve(credential) => credential,
        Decision::Refresh => panic!("told to refresh"),
        Decision::Wait(_) => panic!("told to wait"),
    }
}

#[test]
fn resolver_without_links_is_refused_when_built() {
    let links: Vec<Provider<Operation>> = Vec::new();
    match Resolver::from_links(links, 5) {
        Ok(_) => panic!("expected a refusal"),
        Err(e) => assert_eq!(e, ProviderError::EmptyChain),
    }
}

#[test]
fn new_resolver_has_nothing_cached() {
    let r = resolver(vec![fixed(cred("static", None))], 5);
    assert!(r.cached().is_none());
}

#[test]
fn static_after_failing_function_resolves_to_the_static_credential() {
    let mut r = resolver(vec![failing("always down"), fixed(cred("static", None))], DEFAULT_SAFETY_MARGIN);
    let resolution = r.resolve_traced(100);
    let got = resolution.outcome.unwrap();
    assert_eq!(got.access_key_id(), "AKIA...");
    assert_eq!(got.secret_access_key(), "secret1");
    assert_eq!(got.session_token(), None);
    assert_eq!(got.expires_at(), None);
    assert_eq!(got.issuer(), "static");
    let report = resolution.report.unwrap();
    assert_eq!(report.attempts(), 2);
    assert_eq!(report.failures(), &vec![ProviderError::Upstream("always down".to_string())]);
    assert!(report.winner().unwrap() == &cred("static", None));
    assert_eq!(report.diagnostic(), "failed: [upstream failure: always down]; succeeded: static");
}

#[test]
fn resolve_twice_while_fresh_asks_the_provider_once() {
    let calls = Arc::new(AtomicUsize::new(0));
    let mut r = resolver(vec![counted(&calls, Ok(cred("sts", Some(1_000))))], 5);
    let first = r.resolve(100).unwrap();
    let second = r.resolve(200).unwrap();
    assert!(first == second);
    assert_eq!(calls.load(Ordering::SeqCst), 1);
}

#[test]
fn resolve_from_the_cache_leaves_no_report() {
    let mut r = resolver(vec![fixed(cred("static", None))], 5);
    assert!(r.resolve_traced(1).report.is_some());
    let again = r.resolve_traced(2);
    assert!(again.report.is_none());
    assert!(again.outcome.unwrap() == cred("static", None));
}

#[test]
fn resolve_refreshes_exactly_from_expiration_less_margin() {
    let calls = Arc::new(AtomicUsize::new(0));
    let mut r = resolver(vec![counted(&calls, Ok(cred("sts", Some(1_000))))], 5);
    r.resolve(0).unwrap();
    assert_eq!(calls.load(Ordering::SeqCst), 1);
    r.resolve(994).unwrap();
    assert_eq!(calls.load(Ordering::SeqCst), 1);
    r.resolve(995).unwrap();
    assert_eq!(calls.load(Ordering::SeqCst), 2);
    r.resolve(1_000).unwrap();
    assert_eq!(calls.load(Ordering::SeqCst), 3);
}

#[test]
fn credential_inside_the_margin_is_fetched_again_at_once() {
    let now = 1_700_000_000u64;
    let calls = Arc::new(AtomicUsize::new(0));
    let mut r = resolver(vec![counted(&calls, Ok(cred("sts", Some(now + 1))))], 5);
    r.resolve(now).unwrap();
    assert_eq!(calls.load(Ordering::SeqCst), 1);
    let again = r.resolve_traced(now);
    assert!(again.report.is_some());
    assert_eq!(calls.load(Ordering::SeqCst), 2);
}

#[test]
fn resolve_stores_the_credential_with_its_fetch_time() {
    let mut r = resolver(vec![fixed(cred("static", Some(500)))], 5);
    r.resolve(42).unwrap();
    assert!(r.cached().unwrap() == &cred("static", Some(500)));
}

#[test]
fn failed_resolution_returns_every_error_and_caches_nothing() {
    let mut r = resolver(vec![failing("a"), failing("b")], 5);
    match r.resolve(10) {
        Ok(_) => panic!("expected a failure"),
        Err(e) => assert_eq!(
            e,
            ProviderError::AllFailed(vec![
                ProviderError::Upstream("a".to_string()),
                ProviderError::Upstream("b".to_string()),
            ])
        ),
    }
    assert!(r.cached().is_none());
}

#[test]
fn failed_refresh_surfaces_and_leaves_the_old_entry_in_place() {
    let clock = Arc::new(AtomicU64::new(0));
    let seen = clock.clone();
    let operation: Operation = Box::new(move || {
        if seen.load(Ordering::SeqCst) < 900 {
            Ok(cred("sts", Some(1_000)))
        } else {
            Err("sts is down".to_string())
        }
    });
    let mut r = resolver(vec![Provider::Function(FunctionProvider::new(operation))], 5);
    r.resolve(0).unwrap();
    clock.store(998, Ordering::SeqCst);
    match r.resolve(998) {
        Ok(_) => panic!("a credential inside the margin was reused after a failed refresh"),
        Err(e) => assert_eq!(
            e,
            ProviderError::AllFailed(vec![ProviderError::Upstream("sts is down".to_string())])
        ),
    }
    assert!(r.cached().unwrap() == &cred("sts", Some(1_000)));
}

#[test]
fn failure_does_not_poison_the_next_resolution() {
    let calls = Arc::new(AtomicUsize::new(0));
    let seen = calls.clone();
    let operation: Operation = Box::new(move || {
        if seen.fetch_add(1, Ordering::SeqCst) == 0 {
            Err("cold start".to_string())
        } else {
            Ok(cred("sts", None))
        }
    });
    let mut r = resolver(vec![Provider::Function(FunctionProvider::new(operation))], 5);
    assert!(r.resolve(1).is_err());
    assert!(r.resolve(2).unwrap() == cred("sts", None));
    assert_eq!(calls.load(Ordering::SeqCst), 2);
}

#[test]
fn next_resolution_after_a_failure_starts_at_the_head_of_the_chain() {
    let head = Arc::new(AtomicUsize::new(0));
    let tail = Arc::new(AtomicUsize::new(0));
    let links = vec![
        counted(&head, Err("head".to_string())),
        counted(&tail, Err("tail".to_string())),
    ];
    let mut r = resolver(links, 5);
    assert!(r.resolve(1).is_err());
    assert!(r.resolve(2).is_err());
    assert_eq!(head.load(Ordering::SeqCst), 2);
    assert_eq!(tail.load(Ordering::SeqCst), 2);
}

#[test]
fn state_starts_cold() {
    let state = ResolverState::new(7);
    assert_eq!(state.cache().safety_margin(), 7);
    assert!(state.cache().cached().is_none());
    assert!(!state.is_refreshing());
    let standard = ResolverState::default();
    assert_eq!(standard.cache().safety_margin(), DEFAULT_SAFETY_MARGIN);
}

#[test]
fn cold_requests_share_one_refresh() {
    let mut state = ResolverState::new(5);
    let mut refreshes = 0;
    let mut waits = 0;
    for _ in 0..8 {
        match state.request(100) {
            Decision::Refresh => refreshes += 1,
            Decision::Wait(ticket) => {
                assert_eq!(ticket, 0);
                waits += 1;
            }
            Decision::Serve(_) => panic!("served from an empty cache"),
        }
    }
    assert_eq!(refreshes, 1);
    assert_eq!(waits, 7);
    assert!(state.is_refreshing());
}

fn ticket(decision: Decision) -> u64 {
    match decision {
        Decision::Wait(ticket) => ticket,
        Decision::Serve(_) => panic!("served"),
        Decision::Refresh => panic!("told to refresh"),
    }
}

#[test]
fn waiters_collect_the_credential_of_the_shared_fetch() {
    let mut state = ResolverState::new(5);
    assert!(matches!(state.request(100), Decision::Refresh));
    let first = ticket(state.request(100));
    let second = ticket(state.request(101));
    assert!(state.collect(first).is_none());
    assert!(state.collect(second).is_none());
    let fetched = state.complete(Ok(cred("sts", Some(1_000))), 102).unwrap();
    let one = state.collect(first).unwrap().unwrap();
    let two = state.collect(second).unwrap().unwrap();
    assert!(one == fetched);
    assert!(two == fetched);
}

#[test]
fn waiters_collect_the_error_of_the_shared_fetch() {
    let mut state = ResolverState::new(5);
    assert!(matches!(state.request(1), Decision::Refresh));
    let first = ticket(state.request(1));
    let second = ticket(state.request(2));
    let error = ProviderError::AllFailed(vec![ProviderError::Upstream("down".to_string())]);
    assert_eq!(state.complete(Err(error.clone()), 3).err(), Some(error.clone()));
    assert_eq!(state.collect(first).unwrap().err(), Some(error.clone()));
    assert_eq!(state.collect(second).unwrap().err(), Some(error));
}

#[test]
fn tickets_of_successive_rounds_differ() {
    let mut state = ResolverState::new(5);
    assert!(matches!(state.request(1), Decision::Refresh));
    assert_eq!(ticket(state.request(1)), 0);
    assert!(state.complete(Err(ProviderError::EmptyChain), 2).is_err());
    assert!(matches!(state.request(3), Decision::Refresh));
    assert_eq!(ticket(state.request(3)), 1);
    assert_eq!(state.collect(0).unwrap().err(), Some(ProviderError::EmptyChain));
    assert!(state.collect(1).is_none());
}

#[test]
fn abandoned_fetch_leaves_tickets_unredeemed() {
    let mut state = ResolverState::new(5);
    assert!(matches!(state.request(1), Decision::Refresh));
    let waiting = ticket(state.request(1));
    state.abandon();
    assert!(state.collect(waiting).is_none());
    assert!(matches!(state.request(2), Decision::Refresh));
}

#[test]
fn completion_hands_every_waiter_the_same_credential() {
    let mut state = ResolverState::new(5);
    assert!(matches!(state.request(100), Decision::Refresh));
    assert!(matches!(state.request(100), Decision::Wait(_)));
    assert!(matches!(state.request(101), Decision::Wait(_)));
    let shared = state.complete(Ok(cred("sts", Some(1_000))), 102).unwrap();
    assert!(shared == cred("sts", Some(1_000)));
    assert!(!state.is_refreshing());
    assert_eq!(state.cache().fetched_at(), Some(102));
    assert!(served(state.request(102)) == shared);
    assert!(served(state.request(103)) == shared);
}

#[test]
fn completion_with_an_error_leaves_the_cache_and_clears_the_flag() {
    let mut state = ResolverState::new(5);
    assert!(matches!(state.request(1), Decision::Refresh));
    let error = ProviderError::AllFailed(vec![ProviderError::Upstream("x".to_string())]);
    match state.complete(Err(error.clone()), 2) {
        Ok(_) => panic!("expected the error back"),
        Err(e) => assert_eq!(e, error),
    }
    assert!(!state.is_refreshing());
    assert!(state.cache().cached().is_none());
    assert!(matches!(state.request(3), Decision::Refresh));
}

#[test]
fn request_is_served_until_the_margin_then_refreshes() {
    let mut state = ResolverState::new(5);
    assert!(matches!(state.request(0), Decision::Refresh));
    state.complete(Ok(cred("sts", Some(1_000))), 0).unwrap();
    assert!(served(state.request(994)) == cred("sts", Some(1_000)));
    assert!(!state.is_refreshing());
    assert!(matches!(state.request(995), Decision::Refresh));
    assert!(state.is_refreshing());
    assert!(matches!(state.request(996), Decision::Wait(_)));
}

#[test]
fn abandon_clears_the_flag_and_keeps_the_cache() {
    let mut state = ResolverState::new(5);
    assert!(matches!(state.request(0), Decision::Refresh));
    state.complete(Ok(cred("sts", Some(100))), 0).unwrap();
    assert!(matches!(state.request(200), Decision::Refresh));
    state.abandon();
    assert!(!state.is_refreshing());
    assert!(state.cache().cached().unwrap() == &cred("sts", Some(100)));
    assert!(matches!(state.request(201), Decision::Refresh));
}
