use credential_chain::{Credential, CredentialCache, DEFAULT_SAFETY_MARGIN};

fn expiring(at: u64) -> Credential {
    Credential::new("AKIA".to_string(), "secret1".to_string(), None, Some(at), "sts".to_string())
}

fn lasting() -> Credential {
    Credential::new("AKIA".to_string(), "secret1".to_string(), None, None, "static".to_string())
}

#[test]
fn new_cache_is_empty() {
    let cache = CredentialCache::new(5);
    assert_eq!(cache.safety_margin(), 5);
    assert!(cache.cached().is_none());
    assert!(cache.fetched_at().is_none());
    assert!(cache.lookup(0).is_none());
}

#[test]
fn default_cache_has_the_default_margin() {
    let cache = CredentialCache::default();
    assert_eq!(cache.safety_margin(), DEFAULT_SAFETY_MARGIN);
    assert_eq!(DEFAULT_SAFETY_MARGIN, 30);
    assert!(cache.cached().is_none());
}

#[test]
fn store_replaces_the_slot() {
    let mut cache = CredentialCache::new(5);
    cache.store(expiring(1_000), 10);
    assert!(cache.cached().unwrap() == &expiring(1_000));
    assert_eq!(cache.fetched_at(), Some(10));
    cache.store(lasting(), 20);
    assert!(cache.cached().unwrap() == &lasting());
    assert_eq!(cache.fetched_at(), Some(20));
    assert_eq!(cache.safety_margin(), 5);
}

#[test]
fn lookup_hits_before_expiration_less_margin() {
    let mut cache = CredentialCache::new(5);
    cache.store(expiring(1_000), 10);
    assert!(cache.lookup(10).unwrap() == expiring(1_000));
    assert!(cache.lookup(994).unwrap() == expiring(1_000));
}

#[test]
fn lookup_misses_from_expiration_less_margin_on() {
    let mut cache = CredentialCache::new(5);
    cache.store(expiring(1_000), 10);
    assert!(cache.lookup(995).is_none());
    assert!(cache.lookup(999).is_none());
    assert!(cache.lookup(1_000).is_none());
    assert!(cache.lookup(5_000).is_none());
}

#[test]
fn lookup_leaves_an_expired_entry_in_the_slot() {
    let mut cache = CredentialCache::new(5);
    cache.store(expiring(1_000), 10);
    assert!(cache.lookup(2_000).is_none());
    assert!(cache.cached().unwrap() == &expiring(1_000));
}

#[test]
fn lookup_without_expiration_always_hits() {
    let mut cache = CredentialCache::new(30);
    cache.store(lasting(), 0);
    assert!(cache.lookup(0).unwrap() == lasting());
    assert!(cache.lookup(u64::MAX).unwrap() == lasting());
}

#[test]
fn lookup_twice_gives_equal_credentials() {
    let mut cache = CredentialCache::new(5);
    cache.store(expiring(1_000), 10);
    let first = cache.lookup(100).unwrap();
    let second = cache.lookup(200).unwrap();
    assert!(first == second);
}
