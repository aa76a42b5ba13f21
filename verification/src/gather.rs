//! Reducing a sequence of results to one: every value in order, or the first error.

use vstd::prelude::*;
use crate::error::{viewed, Error, ErrorView};

verus! {

/// Whether `results[i]` is an error and nothing before it is.
pub open spec fn is_first_error<T>(results: Seq<Result<T, ErrorView>>, i: int) -> bool {
    &&& 0 <= i < results.len()
    &&& results[i] is Err
    &&& forall|j: int| 0 <= j < i ==> results[j] is Ok
}

/// The index of the first error among `results`, if there is an error.
pub open spec fn first_error<T>(results: Seq<Result<T, ErrorView>>) -> Option<int> {
    if exists|i: int| is_first_error(results, i) {
        Some(choose|i: int| is_first_error(results, i))
    } else {
        None
    }
}

/// The value of each result, in order; meant for results without an error.
pub open spec fn values_of<T>(results: Seq<Result<T, ErrorView>>) -> Seq<T> {
    Seq::new(results.len(), |i: int| results[i]->Ok_0)
}

/// All values in the order of their results where every result is a value,
/// and else the error that stands first.
pub open spec fn gathered<T>(results: Seq<Result<T, ErrorView>>) -> Result<Seq<T>, ErrorView> {
    match first_error(results) {
        Some(i) => Err(results[i]->Err_0),
        None => Ok(values_of(results)),
    }
}

/// The views of a sequence of results.
pub open spec fn all_viewed<T: DeepView>(results: Seq<Result<T, Error>>) -> Seq<
    Result<T::V, ErrorView>,
> {
    results.map_values(|result: Result<T, Error>| viewed(result))
}

/// Only one index can hold the first error.
pub proof fn lemma_first_error_unique<T>(results: Seq<Result<T, ErrorView>>, i: int)
    requires
        is_first_error(results, i),
    ensures
        first_error(results) == Some(i),
        gathered(results) == Err::<Seq<T>, ErrorView>(results[i]->Err_0),
{
    let k = choose|k: int| is_first_error(results, k);
    assert(k == i) by {
        if k < i {
            assert(results[k] is Ok);
        } else if i < k {
            assert(results[i] is Ok);
        }
    }
}

/// Where a result is an error, some result at or before it is the first error.
pub proof fn lemma_first_error_exists<T>(results: Seq<Result<T, ErrorView>>, i: int)
    requires
        0 <= i < results.len(),
        results[i] is Err,
    ensures
        first_error(results) is Some,
        0 <= first_error(results)->0 <= i,
        is_first_error(results, first_error(results)->0),
    decreases i,
{
    if exists|j: int| 0 <= j < i && results[j] is Err {
        let j = choose|j: int| 0 <= j < i && results[j] is Err;
        lemma_first_error_exists(results, j);
    } else {
        assert(is_first_error(results, i));
        lemma_first_error_unique(results, i);
    }
}

/// Gathers the values of `results` in order, or hands back the first error.
pub fn gather<T: DeepView>(results: Vec<Result<T, Error>>) -> (all: Result<Vec<T>, Error>)
    ensures
        viewed(all) == gathered(all_viewed(results@)),
{
    let ghost views = all_viewed(results@);
    let mut values: Vec<T> = Vec::new();
    assert(values.deep_view() =~= values_of(views.take(0)));
    for result in it: results
        invariant
            it.seq() == results@,
            views == all_viewed(results@),
            forall|j: int| 0 <= j < it.index() ==> views[j] is Ok,
            values.deep_view() == values_of(views.take(it.index() as int)),
    {
        let ghost i = it.index() as int;
        let ghost before = values.deep_view();
        match result {
            Ok(value) => {
                values.push(value);
                assert(values.deep_view() =~= before.push(value.deep_view()));
                assert(values_of(views.take(i + 1)) =~= values_of(views.take(i)).push(
                    views[i]->Ok_0,
                ));
            },
            Err(error) => {
                proof {
                    assert(views[i] == Err::<T::V, ErrorView>(error@));
                    lemma_first_error_unique(views, i);
                }
                return Err(error);
            },
        }
    }
    proof {
        assert(views.take(views.len() as int) =~= views);
        assert(forall|i: int| !is_first_error(views, i));
    }
    Ok(values)
}

} // verus!
