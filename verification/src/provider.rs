//! Providers: anything that can produce a credential, and may fail to.

use vstd::prelude::*;
use crate::credential::{Credential, CredentialView};
use crate::error::{ProviderError, ProviderErrorView};

verus! {

/// The result of asking a provider, as a mathematical value.
pub type OutcomeView = Result<CredentialView, ProviderErrorView>;

/// The view of a provider's result.
pub open spec fn outcome_view(outcome: Result<Credential, ProviderError>) -> OutcomeView {
    match outcome {
        Ok(credential) => Ok(credential@),
        Err(error) => Err(error@),
    }
}

/// What a wrapped operation's result becomes: its credential as it is, its
/// failure message as an upstream error.
pub open spec fn upstream_outcome(raw: Result<Credential, String>) -> OutcomeView {
    match raw {
        Ok(credential) => Ok(credential@),
        Err(message) => Err(ProviderErrorView::Upstream(message@)),
    }
}

/// Turns the result of a wrapped operation into a provider's result.
pub fn wrap_upstream(raw: Result<Credential, String>) -> (outcome: Result<Credential, ProviderError>)
    ensures
        outcome_view(outcome) == upstream_outcome(raw),
{
    match raw {
        Ok(credential) => Ok(credential),
        Err(message) => Err(ProviderError::Upstream(message)),
    }
}

/// Copies a provider's result, for a second consumer of the same resolution.
pub fn clone_outcome(outcome: &Result<Credential, ProviderError>) -> (copy: Result<
    Credential,
    ProviderError,
>)
    ensures
        outcome_view(copy) == outcome_view(*outcome),
{
    match outcome {
        Ok(credential) => Ok(credential.clone()),
        Err(error) => Err(error.clone()),
    }
}

/// A provider that always returns one fixed credential.
#[derive(Debug)]
pub struct StaticProvider {
    credential: Credential,
}

impl StaticProvider {
    /// The fixed credential.
    pub closed spec fn credential(self) -> CredentialView {
        self.credential@
    }

    /// A provider of `credential`.
    pub fn new(credential: Credential) -> (provider: StaticProvider)
        ensures
            provider.credential() == credential@,
    {
        StaticProvider { credential }
    }

    /// Returns a copy of the fixed credential. It never fails.
    pub fn provide(&self) -> (outcome: Result<Credential, ProviderError>)
        ensures
            outcome_view(outcome) == Ok::<CredentialView, ProviderErrorView>(self.credential()),
    {
        Ok(self.credential.clone())
    }
}

/// A provider that wraps an operation supplied by the user. The operation is
/// called anew each time a credential is asked for.
///
/// The bounds make the operation callable any number of times through a
/// shared reference, from any thread: a capture that cannot be shared across
/// threads is refused when the provider is built.
pub struct FunctionProvider<F: Fn() -> Result<Credential, String> + Send + Sync> {
    operation: F,
}

impl<F: Fn() -> Result<Credential, String> + Send + Sync> FunctionProvider<F> {
    #[verifier::type_invariant]
    closed spec fn callable(self) -> bool {
        call_requires(self.operation, ())
    }

    /// The wrapped operation.
    pub closed spec fn operation(self) -> F {
        self.operation
    }

    /// The results that asking this provider can give: those of the wrapped
    /// operation, with a failure wrapped as an upstream error.
    pub open spec fn may_yield(self, outcome: OutcomeView) -> bool {
        exists|raw: Result<Credential, String>|
            call_ensures(self.operation(), (), raw) && outcome == #[trigger] upstream_outcome(raw)
    }

    /// Wraps `operation`, which must be callable without further conditions.
    pub fn new(operation: F) -> (provider: FunctionProvider<F>)
        requires
            call_requires(operation, ()),
        ensures
            provider.operation() == operation,
    {
        FunctionProvider { operation }
    }

    /// Calls the wrapped operation once and wraps its failure. Nothing is
    /// remembered from one call to the next.
    pub fn provide(&self) -> (outcome: Result<Credential, ProviderError>)
        ensures
            self.may_yield(outcome_view(outcome)),
    {
        proof {
            use_type_invariant(self);
        }
        wrap_upstream((self.operation)())
    }
}

} // verus!
