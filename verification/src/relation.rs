//! The relation resolver: from the references of a row and the outcome of
//! fetching each referenced row to the links of the task.

use vstd::prelude::*;
use crate::error::{viewed, Error, ErrorView};
use crate::gather::{all_viewed, gather, gathered};
use crate::model::{copy_icon, copy_text, Icon, IconView};
use crate::task::{RelationLink, RelationLinkView};

verus! {

/// What a link shows of a fetched row.
#[derive(Debug, PartialEq, Eq)]
pub struct FetchedPage {
    /// The display title that the store derives for the row, if it has one.
    pub title: Option<String>,
    pub icon: Option<Icon>,
}

pub struct FetchedPageView {
    pub title: Option<Seq<char>>,
    pub icon: Option<IconView>,
}

impl DeepView for FetchedPage {
    type V = FetchedPageView;

    open spec fn deep_view(&self) -> FetchedPageView {
        FetchedPageView { title: self.title.deep_view(), icon: self.icon.deep_view() }
    }
}

impl View for FetchedPage {
    type V = FetchedPageView;

    open spec fn view(&self) -> FetchedPageView {
        self.deep_view()
    }
}

/// How the fetch of one referenced row ended.
#[derive(Debug, PartialEq, Eq)]
pub enum FetchOutcome {
    Found { page: FetchedPage },
    /// The row could not be had: not found, not permitted, no network.
    Failed { message: String },
}

pub enum FetchOutcomeView {
    Found { page: FetchedPageView },
    Failed { message: Seq<char> },
}

impl DeepView for FetchOutcome {
    type V = FetchOutcomeView;

    open spec fn deep_view(&self) -> FetchOutcomeView {
        match *self {
            FetchOutcome::Found { page } => FetchOutcomeView::Found { page: page@ },
            FetchOutcome::Failed { message } => FetchOutcomeView::Failed { message: message@ },
        }
    }
}

impl View for FetchOutcome {
    type V = FetchOutcomeView;

    open spec fn view(&self) -> FetchOutcomeView {
        self.deep_view()
    }
}

/// The link for one reference: its identifier is the reference itself, its
/// name and icon are those of the fetched row. A failed fetch gives no link.
pub open spec fn linked(reference: Seq<char>, outcome: FetchOutcomeView) -> Result<
    RelationLinkView,
    ErrorView,
> {
    match outcome {
        FetchOutcomeView::Found { page } => Ok(
            RelationLinkView { id: reference, name: page.title, icon: page.icon },
        ),
        FetchOutcomeView::Failed { message } => Err(ErrorView::Referential { reference, message }),
    }
}

/// The link or the error of each reference, the outcome at an index being
/// that of the reference at the same index.
pub open spec fn links_of(references: Seq<Seq<char>>, outcomes: Seq<FetchOutcomeView>) -> Seq<
    Result<RelationLinkView, ErrorView>,
> {
    Seq::new(references.len(), |i: int| linked(references[i], outcomes[i]))
}

/// One link for each reference, in the order of the references, where every
/// fetch succeeded; else the error of the first reference whose fetch failed.
pub open spec fn resolved(references: Seq<Seq<char>>, outcomes: Seq<FetchOutcomeView>) -> Result<
    Seq<RelationLinkView>,
    ErrorView,
> {
    gathered(links_of(references, outcomes))
}

/// Builds the link for one reference from the outcome of its fetch.
pub fn link(reference: &String, outcome: &FetchOutcome) -> (result: Result<RelationLink, Error>)
    ensures
        viewed(result) == linked(reference@, outcome@),
{
    match outcome {
        FetchOutcome::Found { page } => Ok(
            RelationLink {
                id: reference.clone(),
                name: copy_text(&page.title),
                icon: copy_icon(&page.icon),
            },
        ),
        FetchOutcome::Failed { message } => Err(
            Error::Referential { reference: reference.clone(), message: message.clone() },
        ),
    }
}

/// Resolves the references of one row, given the outcome of each fetch.
pub fn resolve_relations(references: &Vec<String>, outcomes: &Vec<FetchOutcome>) -> (result:
    Result<Vec<RelationLink>, Error>)
    requires
        outcomes.len() == references.len(),
    ensures
        viewed(result) == resolved(references.deep_view(), outcomes.deep_view()),
{
    let mut links: Vec<Result<RelationLink, Error>> = Vec::new();
    let mut i: usize = 0;
    while i < references.len()
        invariant
            i <= references.len(),
            outcomes.len() == references.len(),
            links.len() == i,
            forall|j: int|
                0 <= j < i ==> viewed(#[trigger] links@[j]) == linked(
                    references@[j]@,
                    outcomes@[j]@,
                ),
        decreases references.len() - i,
    {
        links.push(link(&references[i], &outcomes[i]));
        i += 1;
    }
    assert(all_viewed(links@) =~= links_of(references.deep_view(), outcomes.deep_view()));
    gather(links)
}

} // verus!
