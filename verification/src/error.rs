//! The errors of credential resolution, and their rendering as text.

use vstd::prelude::*;
use vstd::string::*;

verus! {

/// A [`ProviderError`] as a mathematical value.
pub enum ProviderErrorView {
    Upstream(Seq<char>),
    EmptyChain,
    AllFailed(Seq<ProviderErrorView>),
}

/// Why no credential was produced.
#[derive(Debug)]
pub enum ProviderError {
    /// The underlying source failed or returned malformed data. A chain
    /// absorbs this error and tries its next link.
    Upstream(String),
    /// A chain was configured without any provider. It is reported when the
    /// chain is built, never when it is used.
    EmptyChain,
    /// Every link of a chain failed. The errors are those of the links, one
    /// per link, in chain order.
    AllFailed(Vec<ProviderError>),
}

/// The views of a list of errors, in order.
pub open spec fn error_views(errors: Seq<ProviderError>) -> Seq<ProviderErrorView> {
    Seq::new(errors.len(), |i: int| errors[i]@)
}

impl View for ProviderError {
    type V = ProviderErrorView;

    open spec fn view(&self) -> ProviderErrorView
        decreases self,
    {
        match self {
            ProviderError::Upstream(message) => ProviderErrorView::Upstream(message@),
            ProviderError::EmptyChain => ProviderErrorView::EmptyChain,
            ProviderError::AllFailed(errors) => ProviderErrorView::AllFailed(
                Seq::new(
                    errors.len() as nat,
                    |i: int|
                        if 0 <= i < errors.len() {
                            errors[i]@
                        } else {
                            ProviderErrorView::EmptyChain
                        },
                ),
            ),
        }
    }
}

/// The view of an aggregate is the aggregate of the views.
pub proof fn lemma_all_failed_view(errors: Vec<ProviderError>)
    ensures
        ProviderError::AllFailed(errors)@ == ProviderErrorView::AllFailed(error_views(errors@)),
{
    let whole = ProviderError::AllFailed(errors)@;
    assert(whole->AllFailed_0 =~= error_views(errors@));
}

impl ProviderErrorView {
    /// The text of an error. An aggregate lists the text of each of its
    /// errors in order, separated by `"; "`, between square brackets.
    pub open spec fn describe(self) -> Seq<char>
        decreases self, 0nat,
    {
        match self {
            ProviderErrorView::Upstream(message) => "upstream failure: "@ + message,
            ProviderErrorView::EmptyChain => "empty provider chain"@,
            ProviderErrorView::AllFailed(errors) => "all providers failed: ["@ + describe_first(
                errors,
                errors.len(),
            ) + "]"@,
        }
    }
}

/// The texts of the first `n` errors of `errors`, separated by `"; "`.
pub open spec fn describe_first(errors: Seq<ProviderErrorView>, n: nat) -> Seq<char>
    decreases errors, n,
{
    if n == 0 || n > errors.len() {
        Seq::<char>::empty()
    } else if n == 1 {
        errors[0].describe()
    } else {
        describe_first(errors, (n - 1) as nat) + "; "@ + errors[n - 1].describe()
    }
}

impl ProviderError {
    /// The text of the error, for the caller to show: every source that was
    /// tried and why it failed.
    pub fn describe(&self) -> (text: String)
        ensures
            text@ == self@.describe(),
        decreases self, 0nat,
    {
        match self {
            ProviderError::Upstream(message) => {
                let mut text = String::from_str("upstream failure: ");
                text.append(message.as_str());
                text
            },
            ProviderError::EmptyChain => String::from_str("empty provider chain"),
            ProviderError::AllFailed(errors) => {
                proof {
                    lemma_all_failed_view(*errors);
                    assert(decreases_to!(*self => self->AllFailed_0));
                }
                let mut text = String::from_str("all providers failed: [");
                let listed = describe_all(errors);
                text.append(listed.as_str());
                text.append("]");
                text
            },
        }
    }
}

/// The texts of `errors` in order, separated by `"; "`.
pub fn describe_all(errors: &Vec<ProviderError>) -> (text: String)
    ensures
        text@ == describe_first(error_views(errors@), errors.len() as nat),
    decreases errors, 1nat,
{
    let ghost views = error_views(errors@);
    let mut text = String::new();
    let mut i: usize = 0;
    while i < errors.len()
        invariant
            i <= errors.len(),
            views == error_views(errors@),
            text@ == describe_first(views, i as nat),
        decreases errors.len() - i,
    {
        let ghost before = text@;
        if i > 0 {
            text.append("; ");
        }
        assert(decreases_to!(*errors => errors[i as int]));
        let part = errors[i].describe();
        text.append(part.as_str());
        i += 1;
    }
    text
}

impl Clone for ProviderError {
    fn clone(&self) -> (copy: ProviderError)
        ensures
            copy@ == self@,
        decreases self, 0nat,
    {
        match self {
            ProviderError::Upstream(message) => ProviderError::Upstream(message.clone()),
            ProviderError::EmptyChain => ProviderError::EmptyChain,
            ProviderError::AllFailed(errors) => {
                proof {
                    assert(decreases_to!(*self => self->AllFailed_0));
                }
                let copies = clone_errors(errors);
                proof {
                    lemma_all_failed_view(*errors);
                    lemma_all_failed_view(copies);
                }
                ProviderError::AllFailed(copies)
            },
        }
    }
}

impl PartialEq for ProviderError {
    fn eq(&self, other: &ProviderError) -> (equal: bool)
        decreases self, 0nat,
    {
        match (self, other) {
            (ProviderError::Upstream(mine), ProviderError::Upstream(theirs)) => *mine == *theirs,
            (ProviderError::EmptyChain, ProviderError::EmptyChain) => true,
            (ProviderError::AllFailed(mine), ProviderError::AllFailed(theirs)) => {
                proof {
                    lemma_all_failed_view(*mine);
                    lemma_all_failed_view(*theirs);
                    assert(decreases_to!(*self => self->AllFailed_0));
                }
                same_errors(mine, theirs)
            },
            _ => false,
        }
    }
}

impl Eq for ProviderError {}

impl vstd::std_specs::cmp::PartialEqSpecImpl for ProviderError {
    open spec fn obeys_eq_spec() -> bool {
        true
    }

    open spec fn eq_spec(&self, other: &ProviderError) -> bool {
        self@ == other@
    }
}

/// Whether two lists hold equal errors in the same order.
pub fn same_errors(first: &Vec<ProviderError>, second: &Vec<ProviderError>) -> (equal: bool)
    ensures
        equal == (error_views(first@) == error_views(second@)),
    decreases first, 1nat,
{
    if first.len() != second.len() {
        assert(error_views(first@).len() != error_views(second@).len());
        return false;
    }
    let mut i: usize = 0;
    while i < first.len()
        invariant
            i <= first.len(),
            first.len() == second.len(),
            forall|j: int| 0 <= j < i ==> first[j]@ == second[j]@,
        decreases first.len() - i,
    {
        assert(decreases_to!(*first => first[i as int]));
        if !(first[i] == second[i]) {
            assert(error_views(first@)[i as int] != error_views(second@)[i as int]);
            return false;
        }
        i += 1;
    }
    assert(error_views(first@) =~= error_views(second@));
    true
}

/// Copies a list of errors, keeping their order.
pub fn clone_errors(errors: &Vec<ProviderError>) -> (copies: Vec<ProviderError>)
    ensures
        error_views(copies@) == error_views(errors@),
    decreases errors, 1nat,
{
    let mut copies: Vec<ProviderError> = Vec::new();
    let mut i: usize = 0;
    while i < errors.len()
        invariant
            i <= errors.len(),
            copies.len() == i,
            forall|j: int| 0 <= j < i ==> copies[j]@ == errors[j]@,
        decreases errors.len() - i,
    {
        assert(decreases_to!(*errors => errors[i as int]));
        copies.push(errors[i].clone());
        i += 1;
    }
    assert(error_views(copies@) =~= error_views(errors@));
    copies
}

} // verus!
