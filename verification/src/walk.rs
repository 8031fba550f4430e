//! The fallback walk over a chain: which link is asked next, when the walk
//! stops, and the report it leaves. The walk itself asks nobody: its driver
//! asks link after link and feeds each result in.

use vstd::prelude::*;
use vstd::string::*;
use crate::credential::{Credential, CredentialView};
use crate::error::{
    clone_errors, describe_all, describe_first, error_views, lemma_all_failed_view, ProviderError,
    ProviderErrorView,
};
use crate::provider::{clone_outcome, outcome_view, OutcomeView};

verus! {

/// A [`ChainReport`] as a mathematical value.
pub struct ChainReportView {
    /// The errors of the links that were asked and failed, in chain order.
    pub failures: Seq<ProviderErrorView>,
    /// The credential of the link that succeeded, if one did.
    pub winner: Option<CredentialView>,
}

impl ChainReportView {
    /// How many links were asked.
    pub open spec fn attempts(self) -> nat {
        if self.winner is Some {
            self.failures.len() + 1
        } else {
            self.failures.len()
        }
    }

    /// What the chain returns: the winner's credential, or all the failures.
    pub open spec fn outcome(self) -> OutcomeView {
        match self.winner {
            Some(credential) => Ok(credential),
            None => Err(ProviderErrorView::AllFailed(self.failures)),
        }
    }

    /// The report as text: the failures in order, then the issuer of the
    /// credential that won, if any.
    pub open spec fn diagnostic(self) -> Seq<char> {
        "failed: ["@ + describe_first(self.failures, self.failures.len()) + "]; "@ + (
        match self.winner {
            Some(credential) => "succeeded: "@ + credential.issuer,
            None => "no provider succeeded"@,
        })
    }

    /// This is the report of a chain whose links would return `outcomes`, link
    /// by link: every link before the first success failed with the recorded
    /// error, and the winner is that first success. No link after it counts.
    pub open spec fn is_report_of(self, outcomes: Seq<OutcomeView>) -> bool {
        let n = self.failures.len() as int;
        &&& n <= outcomes.len()
        &&& forall|i: int|
            0 <= i < n ==> #[trigger] outcomes[i] == Err::<CredentialView, ProviderErrorView>(
                self.failures[i],
            )
        &&& match self.winner {
            Some(credential) => n < outcomes.len() && outcomes[n] == Ok::<
                CredentialView,
                ProviderErrorView,
            >(credential),
            None => n == outcomes.len(),
        }
    }
}

/// What one resolution of a chain did: the failures it met, in order, and the
/// credential it ended with, if any.
#[derive(Debug)]
pub struct ChainReport {
    failures: Vec<ProviderError>,
    winner: Option<Credential>,
}

impl View for ChainReport {
    type V = ChainReportView;

    closed spec fn view(&self) -> ChainReportView {
        ChainReportView {
            failures: error_views(self.failures@),
            winner: match self.winner {
                Some(credential) => Some(credential@),
                None => None,
            },
        }
    }
}

impl ChainReport {
    #[verifier::type_invariant]
    closed spec fn countable(self) -> bool {
        self.winner is Some ==> self.failures.len() < usize::MAX
    }

    /// The errors of the links that failed, in chain order.
    pub fn failures(&self) -> (failures: &Vec<ProviderError>)
        ensures
            error_views(failures@) == self@.failures,
    {
        &self.failures
    }

    /// The credential of the first link that succeeded.
    pub fn winner(&self) -> (winner: Option<&Credential>)
        ensures
            match winner {
                Some(credential) => self@.winner == Some(credential@),
                None => self@.winner.is_none(),
            },
    {
        match &self.winner {
            Some(credential) => Some(credential),
            None => None,
        }
    }

    /// How many links were asked.
    pub fn attempts(&self) -> (n: usize)
        ensures
            n == self@.attempts(),
    {
        proof {
            use_type_invariant(self);
        }
        if self.winner.is_some() {
            self.failures.len() + 1
        } else {
            self.failures.len()
        }
    }

    /// What the chain returns to its caller, as a copy that leaves the report
    /// in place.
    pub fn outcome(&self) -> (outcome: Result<Credential, ProviderError>)
        ensures
            outcome_view(outcome) == self@.outcome(),
    {
        match &self.winner {
            Some(credential) => Ok(credential.clone()),
            None => {
                let failures = clone_errors(&self.failures);
                proof {
                    lemma_all_failed_view(failures);
                }
                Err(ProviderError::AllFailed(failures))
            },
        }
    }

    /// What the chain returns to its caller.
    pub fn into_result(self) -> (outcome: Result<Credential, ProviderError>)
        ensures
            outcome_view(outcome) == self@.outcome(),
    {
        let ChainReport { failures, winner } = self;
        match winner {
            Some(credential) => Ok(credential),
            None => {
                proof {
                    lemma_all_failed_view(failures);
                }
                Err(ProviderError::AllFailed(failures))
            },
        }
    }

    /// The report as text, for logs. It names issuers and errors, never a
    /// secret.
    pub fn diagnostic(&self) -> (text: String)
        ensures
            text@ == self@.diagnostic(),
    {
        let mut text = String::from_str("failed: [");
        let listed = describe_all(&self.failures);
        text.append(listed.as_str());
        text.append("]; ");
        match &self.winner {
            Some(credential) => {
                text.append("succeeded: ");
                text.append(credential.issuer());
            },
            None => {
                text.append("no provider succeeded");
            },
        }
        text
    }

    /// Resolves a chain whose links have already been asked: `outcomes` holds
    /// what each link returned, in chain order. An empty list is refused as an
    /// empty chain.
    pub fn from_outcomes(outcomes: &Vec<Result<Credential, ProviderError>>) -> (resolved: Result<
        ChainReport,
        ProviderError,
    >)
        ensures
            outcomes.len() == 0 <==> resolved is Err,
            resolved matches Err(error) ==> error@ == ProviderErrorView::EmptyChain,
            resolved matches Ok(report) ==> report@.is_report_of(outcome_views(outcomes@)),
    {
        let mut walk = match ChainWalk::begin(outcomes.len()) {
            Ok(walk) => walk,
            Err(error) => {
                return Err(error);
            },
        };
        loop
            invariant
                walk.total() == outcomes.len(),
                forall|i: int|
                    0 <= i < walk.failures().len() ==> #[trigger] outcome_views(outcomes@)[i]
                        == Err::<CredentialView, ProviderErrorView>(walk.failures()[i]),
            decreases walk.total() - walk.failures().len(),
        {
            let i = walk.pending();
            let outcome = clone_outcome(&outcomes[i]);
            match walk.feed(outcome) {
                WalkStep::Next(next) => {
                    walk = next;
                },
                WalkStep::Done(report) => {
                    return Ok(report);
                },
            }
        }
    }
}

/// The views of a list of results, in order.
pub open spec fn outcome_views(outcomes: Seq<Result<Credential, ProviderError>>) -> Seq<
    OutcomeView,
> {
    Seq::new(outcomes.len(), |i: int| outcome_view(outcomes[i]))
}

/// A walk in progress over a chain of `total` links. The links before
/// `pending` have failed; the link at `pending` is the one to ask now.
#[derive(Debug)]
pub struct ChainWalk {
    total: usize,
    failures: Vec<ProviderError>,
}

/// What the driver of a walk does next.
#[derive(Debug)]
pub enum WalkStep {
    /// Ask the link at the walk's `pending` position and feed its result in.
    Next(ChainWalk),
    /// The walk is over: a link succeeded, or the last one failed.
    Done(ChainReport),
}

impl ChainWalk {
    #[verifier::type_invariant]
    closed spec fn in_progress(self) -> bool {
        self.failures.len() < self.total
    }

    /// The number of links in the chain.
    pub closed spec fn total(self) -> nat {
        self.total as nat
    }

    /// The errors of the links asked so far, in chain order.
    pub closed spec fn failures(self) -> Seq<ProviderErrorView> {
        error_views(self.failures@)
    }

    /// Starts a walk at the first link. A chain without links is refused.
    pub fn begin(total: usize) -> (started: Result<ChainWalk, ProviderError>)
        ensures
            total == 0 <==> started is Err,
            started matches Err(error) ==> error@ == ProviderErrorView::EmptyChain,
            started matches Ok(walk) ==> walk.total() == total && walk.failures()
                == Seq::<ProviderErrorView>::empty(),
    {
        if total == 0 {
            Err(ProviderError::EmptyChain)
        } else {
            Ok(ChainWalk::start(total))
        }
    }

    /// Starts a walk over a chain that is known to have links.
    pub(crate) fn start(total: usize) -> (walk: ChainWalk)
        requires
            total > 0,
        ensures
            walk.total() == total,
            walk.failures() == Seq::<ProviderErrorView>::empty(),
    {
        ChainWalk { total, failures: Vec::new() }
    }

    /// The position of the link to ask now.
    pub fn pending(&self) -> (position: usize)
        ensures
            position == self.failures().len(),
            position < self.total(),
    {
        proof {
            use_type_invariant(self);
        }
        self.failures.len()
    }

    /// Takes the result of the pending link. A credential ends the walk at
    /// once, and no later link is asked. An error is recorded; the walk moves
    /// to the next link, or ends in failure if that was the last one.
    pub fn feed(self, outcome: Result<Credential, ProviderError>) -> (step: WalkStep)
        ensures
            match outcome_view(outcome) {
                Ok(credential) => step matches WalkStep::Done(report) && report@ == (
                ChainReportView { failures: self.failures(), winner: Some(credential) }),
                Err(error) => if self.failures().len() + 1 == self.total() {
                    step matches WalkStep::Done(report) && report@ == (ChainReportView {
                        failures: self.failures().push(error),
                        winner: None,
                    })
                } else {
                    step matches WalkStep::Next(walk) && walk.total() == self.total()
                        && walk.failures() == self.failures().push(error)
                },
            },
    {
        proof {
            use_type_invariant(&self);
        }
        let ghost before = self.failures();
        let ChainWalk { total, failures } = self;
        let mut failures = failures;
        match outcome {
            Ok(credential) => WalkStep::Done(ChainReport { failures, winner: Some(credential) }),
            Err(error) => {
                failures.push(error);
                assert(error_views(failures@) =~= before.push(error@));
                if failures.len() == total {
                    WalkStep::Done(ChainReport { failures, winner: None })
                } else {
                    WalkStep::Next(ChainWalk { total, failures })
                }
            },
        }
    }
}

/// The links of a chain would return `outcomes`; link `k` is the first that
/// succeeds. Then the report holds the credential of link `k` after the `k`
/// failures before it, and the chain returns exactly what link `k` returned.
pub proof fn lemma_first_success_wins(report: ChainReportView, outcomes: Seq<OutcomeView>, k: int)
    requires
        report.is_report_of(outcomes),
        0 <= k < outcomes.len(),
        outcomes[k] is Ok,
        forall|j: int| 0 <= j < k ==> outcomes[j] is Err,
    ensures
        report.failures.len() == k,
        report.attempts() == k + 1,
        report.outcome() == outcomes[k],
{
}

/// What the links after the first success would return has no part in the
/// report: two chains that agree up to and including the first success of
/// one of them have the same report.
pub proof fn lemma_later_links_are_ignored(
    first: ChainReportView,
    second: ChainReportView,
    outcomes: Seq<OutcomeView>,
    others: Seq<OutcomeView>,
    k: int,
)
    requires
        first.is_report_of(outcomes),
        second.is_report_of(others),
        0 <= k < outcomes.len(),
        k < others.len(),
        outcomes[k] is Ok,
        forall|j: int| 0 <= j < k ==> outcomes[j] is Err,
        forall|j: int| 0 <= j <= k ==> outcomes[j] == others[j],
    ensures
        first == second,
{
    lemma_first_success_wins(first, outcomes, k);
    assert(forall|j: int| 0 <= j < k ==> others[j] is Err) by {
        assert forall|j: int| 0 <= j < k implies others[j] is Err by {
            assert(outcomes[j] is Err);
        }
    }
    lemma_first_success_wins(second, others, k);
    assert(first.failures =~= second.failures) by {
        assert forall|j: int| 0 <= j < k implies first.failures[j] == second.failures[j] by {
            assert(outcomes[j] == Err::<CredentialView, ProviderErrorView>(first.failures[j]));
            assert(others[j] == Err::<CredentialView, ProviderErrorView>(second.failures[j]));
        }
    }
}

/// Where every link fails, the chain returns the aggregate error: exactly one
/// error for each link, in chain order.
pub proof fn lemma_all_links_fail(report: ChainReportView, outcomes: Seq<OutcomeView>)
    requires
        report.is_report_of(outcomes),
        forall|j: int| 0 <= j < outcomes.len() ==> outcomes[j] is Err,
    ensures
        report.winner is None,
        report.failures.len() == outcomes.len(),
        forall|j: int|
            0 <= j < outcomes.len() ==> outcomes[j] == Err::<CredentialView, ProviderErrorView>(
                #[trigger] report.failures[j],
            ),
        report.outcome() == Err::<CredentialView, ProviderErrorView>(
            ProviderErrorView::AllFailed(report.failures),
        ),
{
}

/// A list of results has one report only.
pub proof fn lemma_report_is_unique(
    first: ChainReportView,
    second: ChainReportView,
    outcomes: Seq<OutcomeView>,
)
    requires
        first.is_report_of(outcomes),
        second.is_report_of(outcomes),
    ensures
        first == second,
{
    let n = first.failures.len() as int;
    let m = second.failures.len() as int;
    if n < m {
        assert(outcomes[n] == Err::<CredentialView, ProviderErrorView>(second.failures[n]));
    }
    if m < n {
        assert(outcomes[m] == Err::<CredentialView, ProviderErrorView>(first.failures[m]));
    }
    assert(first.failures =~= second.failures) by {
        assert forall|j: int| 0 <= j < n implies first.failures[j] == second.failures[j] by {
            assert(outcomes[j] == Err::<CredentialView, ProviderErrorView>(first.failures[j]));
            assert(outcomes[j] == Err::<CredentialView, ProviderErrorView>(second.failures[j]));
        }
    }
}

} // verus!
