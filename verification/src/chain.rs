//! The provider as a closed set of variants, and the chain that tries its
//! links in order until one succeeds.

use vstd::prelude::*;
use crate::credential::{Credential, CredentialView};
use crate::error::{ProviderError, ProviderErrorView};
use crate::provider::{outcome_view, FunctionProvider, OutcomeView, StaticProvider};
use crate::walk::{ChainReport, ChainReportView, ChainWalk, WalkStep};

verus! {

/// Any provider: a fixed credential, a wrapped operation, or a chain of
/// providers, which may itself hold chains.
pub enum Provider<F: Fn() -> Result<Credential, String> + Send + Sync> {
    Static(StaticProvider),
    Function(FunctionProvider<F>),
    Chained(ChainedProvider<F>),
}

/// An ordered list of providers with at least one link. Asking the chain asks
/// its links one after another, strictly in order, and stops at the first
/// that succeeds.
pub struct ChainedProvider<F: Fn() -> Result<Credential, String> + Send + Sync> {
    links: Vec<Provider<F>>,
}

impl<F: Fn() -> Result<Credential, String> + Send + Sync> Provider<F> {
    /// The results that asking this provider can give.
    pub open spec fn may_yield(self, outcome: OutcomeView) -> bool
        decreases self, 0nat,
    {
        match self {
            Provider::Static(fixed) => outcome == Ok::<CredentialView, ProviderErrorView>(
                fixed.credential(),
            ),
            Provider::Function(wrapped) => wrapped.may_yield(outcome),
            Provider::Chained(chain) => chain.may_yield(outcome),
        }
    }

    /// Asks the provider once.
    pub fn provide(&self) -> (outcome: Result<Credential, ProviderError>)
        ensures
            self.may_yield(outcome_view(outcome)),
        decreases self, 0nat,
    {
        match self {
            Provider::Static(fixed) => fixed.provide(),
            Provider::Function(wrapped) => wrapped.provide(),
            Provider::Chained(chain) => chain.provide(),
        }
    }
}

impl<F: Fn() -> Result<Credential, String> + Send + Sync> ChainedProvider<F> {
    #[verifier::type_invariant]
    closed spec fn non_empty(self) -> bool {
        self.links.len() > 0
    }

    /// The links, in the order in which they are asked.
    pub closed spec fn links(self) -> Seq<Provider<F>> {
        self.links@
    }

    /// The reports that one resolution of this chain can leave: each recorded
    /// failure is one that the link at its position can give, the winner is a
    /// credential that the link after them can give, and without a winner
    /// every link has failed.
    pub open spec fn may_report(self, report: ChainReportView) -> bool
        decreases self, 0nat,
    {
        let n = report.failures.len() as int;
        &&& report.attempts() <= self.links().len()
        &&& forall|i: int|
            0 <= i < n ==> self.links()[i].may_yield(
                Err::<CredentialView, ProviderErrorView>(#[trigger] report.failures[i]),
            )
        &&& match report.winner {
            Some(credential) => self.links()[n].may_yield(
                Ok::<CredentialView, ProviderErrorView>(credential),
            ),
            None => n == self.links().len(),
        }
    }

    /// The results that asking this chain can give: the outcome of a report
    /// that it can leave.
    pub open spec fn may_yield(self, outcome: OutcomeView) -> bool
        decreases self, 1nat,
    {
        exists|report: ChainReportView|
            self.may_report(report) && outcome == #[trigger] report.outcome()
    }

    /// Builds a chain over `links`. A chain without links is refused here, so
    /// that no chain in service is ever empty.
    pub fn new(links: Vec<Provider<F>>) -> (built: Result<ChainedProvider<F>, ProviderError>)
        ensures
            links.len() == 0 <==> built is Err,
            built matches Err(error) ==> error@ == ProviderErrorView::EmptyChain,
            built matches Ok(chain) ==> chain.links() == links@,
    {
        if links.len() == 0 {
            Err(ProviderError::EmptyChain)
        } else {
            Ok(ChainedProvider { links })
        }
    }

    /// The number of links; never zero.
    pub fn len(&self) -> (n: usize)
        ensures
            n == self.links().len(),
            n > 0,
    {
        proof {
            use_type_invariant(self);
        }
        self.links.len()
    }

    /// Resolves the chain once and reports what happened at each link asked.
    pub fn provide_report(&self) -> (report: ChainReport)
        ensures
            self.may_report(report@),
            report@.attempts() >= 1,
        decreases self, 0nat,
    {
        proof {
            use_type_invariant(self);
        }
        let mut walk = ChainWalk::start(self.links.len());
        loop
            invariant
                walk.total() == self.links().len(),
                forall|i: int|
                    0 <= i < walk.failures().len() ==> self.links()[i].may_yield(
                        Err::<CredentialView, ProviderErrorView>(#[trigger] walk.failures()[i]),
                    ),
            decreases walk.total() - walk.failures().len(),
        {
            let i = walk.pending();
            proof {
                assert(decreases_to!(*self => self.links));
                assert(decreases_to!(self.links => self.links[i as int]));
            }
            let outcome = self.links[i].provide();
            match walk.feed(outcome) {
                WalkStep::Next(next) => {
                    walk = next;
                },
                WalkStep::Done(report) => {
                    return report;
                },
            }
        }
    }

    /// Resolves the chain once: the credential of the first link that
    /// succeeds, or the errors of all links.
    pub fn provide(&self) -> (outcome: Result<Credential, ProviderError>)
        ensures
            self.may_yield(outcome_view(outcome)),
        decreases self, 1nat,
    {
        self.provide_report().into_result()
    }
}

/// The results of a provider, variant by variant. The definition is
/// recursive, and the verifier unfolds it by itself only so far; a caller
/// states the unfolding with this.
pub proof fn lemma_provider_yields<F: Fn() -> Result<Credential, String> + Send + Sync>(
    provider: Provider<F>,
    outcome: OutcomeView,
)
    ensures
        provider.may_yield(outcome) == match provider {
            Provider::Static(fixed) => outcome == Ok::<CredentialView, ProviderErrorView>(
                fixed.credential(),
            ),
            Provider::Function(wrapped) => wrapped.may_yield(outcome),
            Provider::Chained(chain) => chain.may_yield(outcome),
        },
{
}

/// The results of a chain are the outcomes of the reports that it can leave.
pub proof fn lemma_chain_yields<F: Fn() -> Result<Credential, String> + Send + Sync>(
    chain: ChainedProvider<F>,
    outcome: OutcomeView,
)
    ensures
        chain.may_yield(outcome) == exists|report: ChainReportView|
            chain.may_report(report) && outcome == #[trigger] report.outcome(),
{
}

/// No provider gives the error of an empty chain when it is asked: that
/// error comes only from building one.
pub proof fn lemma_empty_chain_is_never_a_result<F: Fn() -> Result<Credential, String> + Send + Sync>(
    provider: Provider<F>,
    outcome: OutcomeView,
)
    requires
        provider.may_yield(outcome),
    ensures
        outcome != Err::<CredentialView, ProviderErrorView>(ProviderErrorView::EmptyChain),
{
}

/// Link `k` of a chain always succeeds and every link before it always fails.
/// Then every resolution of the chain asks exactly the links up to `k` and
/// returns a credential that link `k` gave, whatever the links after `k`
/// would do.
pub proof fn lemma_chain_returns_first_success<F: Fn() -> Result<Credential, String> + Send + Sync>(
    chain: ChainedProvider<F>,
    k: int,
    report: ChainReportView,
)
    requires
        0 <= k < chain.links().len(),
        forall|j: int, outcome: OutcomeView|
            0 <= j < k && #[trigger] chain.links()[j].may_yield(outcome) ==> outcome is Err,
        forall|outcome: OutcomeView| #[trigger]
            chain.links()[k].may_yield(outcome) ==> outcome is Ok,
        chain.may_report(report),
    ensures
        report.failures.len() == k,
        report.attempts() == k + 1,
        report.outcome() is Ok,
        chain.links()[k].may_yield(report.outcome()),
{
    let n = report.failures.len() as int;
    if n > k {
        assert(chain.links()[k].may_yield(
            Err::<CredentialView, ProviderErrorView>(report.failures[k]),
        ));
    }
    if n < k {
        assert(report.winner is Some);
        assert(chain.links()[n].may_yield(
            Ok::<CredentialView, ProviderErrorView>(report.winner.unwrap()),
        ));
    }
}

/// Every link of a chain always fails. Then every resolution of the chain
/// asks all links and returns the aggregate error, which holds exactly one
/// error for each link, in chain order: the one that the link gave.
pub proof fn lemma_chain_of_failing_links<F: Fn() -> Result<Credential, String> + Send + Sync>(
    chain: ChainedProvider<F>,
    report: ChainReportView,
)
    requires
        forall|j: int, outcome: OutcomeView|
            0 <= j < chain.links().len() && #[trigger] chain.links()[j].may_yield(outcome)
                ==> outcome is Err,
        chain.may_report(report),
    ensures
        report.failures.len() == chain.links().len(),
        report.outcome() == Err::<CredentialView, ProviderErrorView>(
            ProviderErrorView::AllFailed(report.failures),
        ),
        forall|j: int|
            0 <= j < chain.links().len() ==> chain.links()[j].may_yield(
                Err::<CredentialView, ProviderErrorView>(#[trigger] report.failures[j]),
            ),
{
    let n = report.failures.len() as int;
    if report.winner is Some {
        assert(chain.links()[n].may_yield(
            Ok::<CredentialView, ProviderErrorView>(report.winner.unwrap()),
        ));
    }
}

} // verus!
