//! The row projector: one row becomes one task, or one error.
//!
//! A projection runs in two steps around the fetches that only the caller can
//! make. `plan_row` extracts what the row itself holds and names the rows to
//! fetch; `complete_row` takes the outcome of those fetches and builds the
//! task. `project_row` is the two in one, for outcomes that are already known.

use vstd::prelude::*;
use crate::error::{viewed, Error, ErrorView};
use crate::extract::{
    date_of, extract_date, extract_multi_select, extract_references, extract_status,
    extract_title, options_of, references_of, status_of, title_of,
};
use crate::model::{DateValue, DateValueView, PropertyValueView, Row, RowView};
use crate::name_map::NameMap;
use crate::gather::{is_first_error, lemma_first_error_exists, values_of};
use crate::relation::{links_of, resolve_relations, resolved, FetchOutcome, FetchOutcomeView};
use crate::task::{RelationLinkView, SelectOption, SelectOptionView, Task, TaskView};

verus! {

/// The property that holds a task's name.
pub const NAME_PROPERTY: &'static str = "Name";

/// The property that holds a task's due date.
pub const DUE_DATE_PROPERTY: &'static str = "Due Date";

/// The property that holds a task's status.
pub const STATUS_PROPERTY: &'static str = "Status";

/// The property that relates a task to its classes.
pub const CLASS_PROPERTY: &'static str = "Class";

/// The property that holds a task's types.
pub const TYPE_PROPERTY: &'static str = "Type";

/// What a row gives by itself, and the references that are still to be fetched.
#[derive(Debug, PartialEq, Eq)]
pub struct RowPlan {
    pub id: String,
    pub name: String,
    pub due_date: DateValue,
    pub status: SelectOption,
    pub type_: Vec<SelectOption>,
    /// The rows to fetch, one fetch for each, in this order.
    pub references: Vec<String>,
}

pub struct RowPlanView {
    pub id: Seq<char>,
    pub name: Seq<char>,
    pub due_date: DateValueView,
    pub status: SelectOptionView,
    pub type_: Seq<SelectOptionView>,
    pub references: Seq<Seq<char>>,
}

impl DeepView for RowPlan {
    type V = RowPlanView;

    open spec fn deep_view(&self) -> RowPlanView {
        RowPlanView {
            id: self.id@,
            name: self.name@,
            due_date: self.due_date@,
            status: self.status@,
            type_: self.type_.deep_view(),
            references: self.references.deep_view(),
        }
    }
}

impl View for RowPlan {
    type V = RowPlanView;

    open spec fn view(&self) -> RowPlanView {
        self.deep_view()
    }
}

/// The plan of a row: its name, due date, status, references and types, each
/// from the property of that purpose. The first of them that cannot be
/// extracted, in this order, is the row's error.
pub open spec fn planned(row: RowView) -> Result<RowPlanView, ErrorView> {
    match title_of(row, NAME_PROPERTY@) {
        Err(error) => Err(error),
        Ok(name) => match date_of(row, DUE_DATE_PROPERTY@) {
            Err(error) => Err(error),
            Ok(due_date) => match status_of(row, STATUS_PROPERTY@) {
                Err(error) => Err(error),
                Ok(status) => match references_of(row, CLASS_PROPERTY@) {
                    Err(error) => Err(error),
                    Ok(references) => match options_of(row, TYPE_PROPERTY@) {
                        Err(error) => Err(error),
                        Ok(type_) => Ok(
                            RowPlanView { id: row.id, name, due_date, status, type_, references },
                        ),
                    },
                },
            },
        },
    }
}

/// The task of a plan whose references were fetched with `outcomes`: the
/// plan's own values and one link for each reference. One failed fetch fails
/// the whole row.
pub open spec fn completed(plan: RowPlanView, outcomes: Seq<FetchOutcomeView>) -> Result<
    TaskView,
    ErrorView,
> {
    match resolved(plan.references, outcomes) {
        Err(error) => Err(error),
        Ok(class) => Ok(
            TaskView {
                id: plan.id,
                name: plan.name,
                due_date: plan.due_date,
                status: plan.status,
                class,
                type_: plan.type_,
                extra_props: Map::empty(),
            },
        ),
    }
}

/// The task of a row, given the outcome of the fetch of each of its references.
pub open spec fn projected(row: RowView, outcomes: Seq<FetchOutcomeView>) -> Result<
    TaskView,
    ErrorView,
> {
    match planned(row) {
        Err(error) => Err(error),
        Ok(plan) => completed(plan, outcomes),
    }
}

/// Whether `outcomes` holds one outcome for each reference that the row's plan
/// asks for. A row without a plan asks for none, and any outcomes will do.
pub open spec fn outcomes_match(row: RowView, outcomes: Seq<FetchOutcomeView>) -> bool {
    planned(row) matches Ok(plan) ==> outcomes.len() == plan.references.len()
}

/// A row is projected whole or not at all. It has a task exactly where each
/// of the five extractions succeeds and every reference was fetched.
pub proof fn lemma_row_all_or_nothing(row: RowView, outcomes: Seq<FetchOutcomeView>)
    ensures
        projected(row, outcomes) is Ok <==> {
            &&& title_of(row, NAME_PROPERTY@) is Ok
            &&& date_of(row, DUE_DATE_PROPERTY@) is Ok
            &&& status_of(row, STATUS_PROPERTY@) is Ok
            &&& options_of(row, TYPE_PROPERTY@) is Ok
            &&& references_of(row, CLASS_PROPERTY@) matches Ok(references)
            &&& forall|k: int| 0 <= k < references.len() ==> outcomes[k] is Found
        },
{
    if planned(row) is Ok {
        let references = planned(row)->Ok_0.references;
        let links = links_of(references, outcomes);
        if forall|k: int| 0 <= k < references.len() ==> outcomes[k] is Found {
            assert(forall|i: int| !is_first_error(links, i));
        } else {
            let k = choose|k: int| 0 <= k < references.len() && !(outcomes[k] is Found);
            assert(links[k] is Err);
            lemma_first_error_exists(links, k);
        }
    }
}

/// An absent relation is empty, and no error. A row without the class
/// property asks for no fetch, and where it has a task, the task has no class.
pub proof fn lemma_absent_relation_is_empty(row: RowView, outcomes: Seq<FetchOutcomeView>)
    requires
        !row.properties.contains_key(CLASS_PROPERTY@),
    ensures
        references_of(row, CLASS_PROPERTY@) == Ok::<Seq<Seq<char>>, ErrorView>(Seq::empty()),
        planned(row) matches Ok(plan) ==> plan.references.len() == 0,
        planned(row) is Ok ==> projected(row, outcomes) is Ok,
        projected(row, outcomes) matches Ok(task) ==> task.class == Seq::<
            RelationLinkView,
        >::empty(),
{
    if planned(row) is Ok {
        let links = links_of(planned(row)->Ok_0.references, outcomes);
        assert(forall|i: int| !is_first_error(links, i));
        assert(values_of(links) =~= Seq::<RelationLinkView>::empty());
    }
}

/// Extracts what the row holds and names the rows to fetch.
pub fn plan_row(row: &Row) -> (result: Result<RowPlan, Error>)
    ensures
        viewed(result) == planned(row@),
{
    let name = match extract_title(row, NAME_PROPERTY) {
        Ok(name) => name,
        Err(error) => return Err(error),
    };
    let due_date = match extract_date(row, DUE_DATE_PROPERTY) {
        Ok(due_date) => due_date,
        Err(error) => return Err(error),
    };
    let status = match extract_status(row, STATUS_PROPERTY) {
        Ok(status) => status,
        Err(error) => return Err(error),
    };
    let references = match extract_references(row, CLASS_PROPERTY) {
        Ok(references) => references,
        Err(error) => return Err(error),
    };
    let type_ = match extract_multi_select(row, TYPE_PROPERTY) {
        Ok(type_) => type_,
        Err(error) => return Err(error),
    };
    Ok(RowPlan { id: row.id.clone(), name, due_date, status, type_, references })
}

/// Builds the task of a plan from the outcome of the fetch of each reference.
pub fn complete_row(plan: RowPlan, outcomes: &Vec<FetchOutcome>) -> (result: Result<Task, Error>)
    requires
        outcomes.len() == plan.references.len(),
    ensures
        viewed(result) == completed(plan@, outcomes.deep_view()),
{
    let class = match resolve_relations(&plan.references, outcomes) {
        Ok(class) => class,
        Err(error) => return Err(error),
    };
    let extra_props = NameMap::new();
    assert(extra_props.deep_view() =~= Map::<Seq<char>, PropertyValueView>::empty());
    Ok(
        Task {
            id: plan.id,
            name: plan.name,
            due_date: plan.due_date,
            status: plan.status,
            class,
            type_: plan.type_,
            extra_props,
        },
    )
}

/// Projects a row whose references were already fetched.
pub fn project_row(row: &Row, outcomes: &Vec<FetchOutcome>) -> (result: Result<Task, Error>)
    requires
        outcomes_match(row@, outcomes.deep_view()),
    ensures
        viewed(result) == projected(row@, outcomes.deep_view()),
{
    match plan_row(row) {
        Ok(plan) => complete_row(plan, outcomes),
        Err(error) => Err(error),
    }
}

} // verus!
