use std::sync::atomic::{AtomicUsize, Ordering};
use std::sync::Arc;

use credential_chain::provider::{clone_outcome, wrap_upstream};
use credential_chain::{Credential, FunctionProvider, ProviderError, StaticProvider};

fn fixed(issuer: &str) -> Credential {
    Credential::new("AKIA".to_string(), "secret1".to_string(), None, None, issuer.to_string())
}

fn is_shareable<T: Send + Sync>(_value: &T) -> bool {
    true
}

#[test]
fn static_provider_returns_its_credential() {
    let provider = StaticProvider::new(fixed("static"));
    let got = provider.provide().unwrap();
    assert!(got == fixed("static"));
}

#[test]
fn static_provider_never_fails_and_never_changes() {
    let provider = StaticProvider::new(fixed("static"));
    for _ in 0..5 {
        match provider.provide() {
            Ok(c) => assert!(c == fixed("static")),
            Err(e) => panic!("static provider failed: {}", e.describe()),
        }
    }
}

#[test]
fn function_provider_passes_a_credential_through() {
    let provider = FunctionProvider::new(|| Ok(fixed("custom")));
    let got = provider.provide().unwrap();
    assert!(got == fixed("custom"));
}

#[test]
fn function_provider_wraps_a_failure_as_upstream() {
    let provider = FunctionProvider::new(|| Err("no network".to_string()));
    match provider.provide() {
        Ok(_) => panic!("expected a failure"),
        Err(e) => assert_eq!(e, ProviderError::Upstream("no network".to_string())),
    }
}

#[test]
fn function_provider_calls_the_operation_anew_each_time() {
    let calls = Arc::new(AtomicUsize::new(0));
    let seen = calls.clone();
    let provider = FunctionProvider::new(move || {
        seen.fetch_add(1, Ordering::SeqCst);
        Ok(fixed("custom"))
    });
    assert_eq!(calls.load(Ordering::SeqCst), 0);
    provider.provide().unwrap();
    provider.provide().unwrap();
    provider.provide().unwrap();
    assert_eq!(calls.load(Ordering::SeqCst), 3);
}

#[test]
fn function_provider_result_may_differ_from_call_to_call() {
    let calls = Arc::new(AtomicUsize::new(0));
    let seen = calls.clone();
    let provider = FunctionProvider::new(move || {
        let n = seen.fetch_add(1, Ordering::SeqCst);
        if n == 0 {
            Err("warming up".to_string())
        } else {
            Ok(fixed("custom"))
        }
    });
    assert!(provider.provide().is_err());
    assert!(provider.provide().is_ok());
}

#[test]
fn function_provider_with_owned_captures_is_shareable() {
    let access_key_id = String::from("AKIA");
    let secret_access_key = String::from("secret1");
    let provider = FunctionProvider::new(move || {
        Ok(Credential::new(
            access_key_id.clone(),
            secret_access_key.clone(),
            None,
            None,
            "admin".to_string(),
        ))
    });
    assert!(is_shareable(&provider));
    let got = provider.provide().unwrap();
    assert_eq!(got.access_key_id(), "AKIA");
    assert_eq!(got.issuer(), "admin");
}

#[test]
fn function_provider_with_static_slices_is_shareable() {
    const ACCESS_KEY_ID: &str = "";
    const SECRET_ACCESS_KEY: &str = "";
    let provider = FunctionProvider::new(|| {
        Ok(Credential::new(
            ACCESS_KEY_ID.to_string(),
            SECRET_ACCESS_KEY.to_string(),
            None,
            None,
            "admin".to_string(),
        ))
    });
    assert!(is_shareable(&provider));
    let got = provider.provide().unwrap();
    assert!(got.is_anonymous());
}

#[test]
fn wrap_upstream_keeps_a_credential() {
    let got = wrap_upstream(Ok(fixed("env"))).unwrap();
    assert!(got == fixed("env"));
}

#[test]
fn wrap_upstream_wraps_the_message() {
    match wrap_upstream(Err("malformed".to_string())) {
        Ok(_) => panic!("expected a failure"),
        Err(e) => assert_eq!(e, ProviderError::Upstream("malformed".to_string())),
    }
}

#[test]
fn clone_outcome_copies_both_cases() {
    let ok: Result<Credential, ProviderError> = Ok(fixed("env"));
    let err: Result<Credential, ProviderError> = Err(ProviderError::Upstream("x".to_string()));
    assert!(clone_outcome(&ok).unwrap() == fixed("env"));
    match clone_outcome(&err) {
        Ok(_) => panic!("expected a failure"),
        Err(e) => assert_eq!(e, ProviderError::Upstream("x".to_string())),
    }
}
