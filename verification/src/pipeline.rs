//! The pipeline driver: every row of a page is projected, and the results are
//! gathered into the complete list of tasks or the first error.

use vstd::prelude::*;
use crate::error::{viewed, Error, ErrorView};
use crate::gather::{
    all_viewed, first_error, gather, gathered, is_first_error, lemma_first_error_exists,
};
use crate::model::{Row, RowView};
use crate::project::{outcomes_match, planned, project_row, projected};
use crate::relation::{linked, links_of, FetchOutcome, FetchOutcomeView};
use crate::task::{Task, TaskView};

verus! {

/// The projection of each row, the outcomes at an index being those of the
/// row at the same index.
pub open spec fn projections(rows: Seq<RowView>, outcomes: Seq<Seq<FetchOutcomeView>>) -> Seq<
    Result<TaskView, ErrorView>,
> {
    Seq::new(rows.len(), |i: int| projected(rows[i], outcomes[i]))
}

/// The tasks of `rows` in the order of the rows, where every row projects;
/// else the error of the first row that does not.
pub open spec fn pipeline(rows: Seq<RowView>, outcomes: Seq<Seq<FetchOutcomeView>>) -> Result<
    Seq<TaskView>,
    ErrorView,
> {
    gathered(projections(rows, outcomes))
}

/// Whether `outcomes` holds, for each row, one outcome for each reference
/// that the row's plan asks for.
pub open spec fn fetches_match(rows: Seq<RowView>, outcomes: Seq<Seq<FetchOutcomeView>>) -> bool {
    &&& outcomes.len() == rows.len()
    &&& forall|i: int| 0 <= i < rows.len() ==> outcomes_match(#[trigger] rows[i], outcomes[i])
}

/// Projects every row and gathers the tasks, for fetches whose outcomes are
/// already known.
pub fn run_pipeline(rows: &Vec<Row>, outcomes: &Vec<Vec<FetchOutcome>>) -> (result: Result<
    Vec<Task>,
    Error,
>)
    requires
        fetches_match(rows.deep_view(), outcomes.deep_view()),
    ensures
        viewed(result) == pipeline(rows.deep_view(), outcomes.deep_view()),
{
    let mut results: Vec<Result<Task, Error>> = Vec::new();
    let mut i: usize = 0;
    while i < rows.len()
        invariant
            i <= rows.len(),
            fetches_match(rows.deep_view(), outcomes.deep_view()),
            results.len() == i,
            forall|j: int|
                0 <= j < i ==> viewed(#[trigger] results@[j]) == projected(
                    rows@[j]@,
                    outcomes@[j].deep_view(),
                ),
        decreases rows.len() - i,
    {
        assert(outcomes_match(rows.deep_view()[i as int], outcomes.deep_view()[i as int]));
        results.push(project_row(&rows[i], &outcomes[i]));
        i += 1;
    }
    assert(all_viewed(results@) =~= projections(rows.deep_view(), outcomes.deep_view()));
    gather(results)
}

/// Order is kept. A run that succeeds yields one task for each row, the task
/// at an index being the projection of the row at that index; and in each
/// task one link for each reference of its row, the link at an index being
/// that of the reference at that index.
pub proof fn lemma_order_is_kept(rows: Seq<RowView>, outcomes: Seq<Seq<FetchOutcomeView>>)
    requires
        pipeline(rows, outcomes) is Ok,
    ensures
        pipeline(rows, outcomes)->Ok_0.len() == rows.len(),
        forall|i: int|
            0 <= i < rows.len() ==> projected(#[trigger] rows[i], outcomes[i]) == Ok::<
                TaskView,
                ErrorView,
            >(pipeline(rows, outcomes)->Ok_0[i]),
        forall|i: int|
            0 <= i < rows.len() ==> planned(#[trigger] rows[i]) is Ok && pipeline(
                rows,
                outcomes,
            )->Ok_0[i].class.len() == planned(rows[i])->Ok_0.references.len(),
        forall|i: int, k: int|
            0 <= i < rows.len() && 0 <= k < planned(rows[i])->Ok_0.references.len() ==> linked(
                planned(rows[i])->Ok_0.references[k],
                outcomes[i][k],
            ) == Ok::<_, ErrorView>(#[trigger] pipeline(rows, outcomes)->Ok_0[i].class[k]),
{
    let all = projections(rows, outcomes);
    let tasks = pipeline(rows, outcomes)->Ok_0;
    assert forall|i: int| 0 <= i < rows.len() implies all[i] is Ok by {
        if all[i] is Err {
            lemma_first_error_exists(all, i);
        }
    }
    assert forall|i: int| 0 <= i < rows.len() implies planned(#[trigger] rows[i]) is Ok
        && tasks[i].class.len() == planned(rows[i])->Ok_0.references.len() && (forall|k: int|
        0 <= k < planned(rows[i])->Ok_0.references.len() ==> linked(
            planned(rows[i])->Ok_0.references[k],
            outcomes[i][k],
        ) == Ok::<_, ErrorView>(#[trigger] tasks[i].class[k])) by {
        assert(all[i] is Ok);
        let plan = planned(rows[i])->Ok_0;
        let links = links_of(plan.references, outcomes[i]);
        assert forall|k: int| 0 <= k < links.len() implies links[k] is Ok by {
            if links[k] is Err {
                lemma_first_error_exists(links, k);
            }
        }
    }
}

/// All or nothing. Where the projection of one row fails, the run fails; it
/// never yields the tasks of the other rows.
pub proof fn lemma_all_or_nothing(
    rows: Seq<RowView>,
    outcomes: Seq<Seq<FetchOutcomeView>>,
    i: int,
)
    requires
        0 <= i < rows.len(),
        projected(rows[i], outcomes[i]) is Err,
    ensures
        pipeline(rows, outcomes) is Err,
        exists|j: int|
            0 <= j <= i && is_first_error(projections(rows, outcomes), j) && pipeline(
                rows,
                outcomes,
            ) == Err::<Seq<TaskView>, ErrorView>(projected(rows[j], outcomes[j])->Err_0),
{
    let all = projections(rows, outcomes);
    lemma_first_error_exists(all, i);
    let j = first_error(all)->0;
    assert(is_first_error(all, j));
}

/// Two runs on the same rows with the same outcomes yield the same result.
pub proof fn lemma_runs_agree(
    rows: Seq<RowView>,
    outcomes: Seq<Seq<FetchOutcomeView>>,
    first: Result<Seq<TaskView>, ErrorView>,
    second: Result<Seq<TaskView>, ErrorView>,
)
    requires
        first == pipeline(rows, outcomes),
        second == pipeline(rows, outcomes),
    ensures
        first == second,
{
}

} // verus!
