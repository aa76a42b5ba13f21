//! The property extractors: each pulls one named value of one expected kind
//! out of a row, and says what is wrong where it cannot.

use vstd::prelude::*;
use vstd::string::*;
use crate::error::{viewed, Error, ErrorView, SchemaProblem};
use crate::model::{
    DateValue, DateValueView, PropertyValue, PropertyValueView, Row, RowView, SelectedValue,
    SelectedValueView,
};
use crate::task::{SelectOption, SelectOptionView};
use crate::text::{join_runs, joined};

verus! {

/// The error for a property that does not have the expected shape.
pub open spec fn mismatch(name: Seq<char>, problem: SchemaProblem) -> ErrorView {
    ErrorView::SchemaMismatch { property: name, problem }
}

/// The title under `name`: the text of its runs, joined. It fails where the
/// row has no such property or the property is no title.
pub open spec fn title_of(row: RowView, name: Seq<char>) -> Result<Seq<char>, ErrorView> {
    if !row.properties.contains_key(name) {
        Err(mismatch(name, SchemaProblem::Missing))
    } else {
        match row.properties[name] {
            PropertyValueView::Title { title } => Ok(joined(title)),
            _ => Err(mismatch(name, SchemaProblem::WrongKind)),
        }
    }
}

/// The date under `name`, as it stands. It fails where the row has no such
/// property, the property is no date, or no date is set.
pub open spec fn date_of(row: RowView, name: Seq<char>) -> Result<DateValueView, ErrorView> {
    if !row.properties.contains_key(name) {
        Err(mismatch(name, SchemaProblem::Missing))
    } else {
        match row.properties[name] {
            PropertyValueView::Date { date: Some(date) } => Ok(date),
            PropertyValueView::Date { date: None } => Err(mismatch(name, SchemaProblem::Empty)),
            _ => Err(mismatch(name, SchemaProblem::WrongKind)),
        }
    }
}

/// The option that a chosen value stands for, if its identifier and its name
/// are both there.
pub open spec fn complete_option(value: SelectedValueView) -> Option<SelectOptionView> {
    match (value.id, value.name) {
        (Some(id), Some(name)) => Some(SelectOptionView { id, name, color: value.color }),
        _ => None,
    }
}

/// The status under `name`. It fails where the row has no such property, the
/// property is no status, no status is set, or the status lacks its
/// identifier or its name.
pub open spec fn status_of(row: RowView, name: Seq<char>) -> Result<SelectOptionView, ErrorView> {
    if !row.properties.contains_key(name) {
        Err(mismatch(name, SchemaProblem::Missing))
    } else {
        match row.properties[name] {
            PropertyValueView::Status { status: Some(status) } => match complete_option(status) {
                Some(option) => Ok(option),
                None => Err(mismatch(name, SchemaProblem::Incomplete)),
            },
            PropertyValueView::Status { status: None } => Err(
                mismatch(name, SchemaProblem::Empty),
            ),
            _ => Err(mismatch(name, SchemaProblem::WrongKind)),
        }
    }
}

/// The options under `name`: those of the multi-select that have both an
/// identifier and a name, in their order; the others are left out. It fails
/// where the row has no such property, the property is no multi-select, or it
/// carries no list.
pub open spec fn options_of(row: RowView, name: Seq<char>) -> Result<
    Seq<SelectOptionView>,
    ErrorView,
> {
    if !row.properties.contains_key(name) {
        Err(mismatch(name, SchemaProblem::Missing))
    } else {
        match row.properties[name] {
            PropertyValueView::MultiSelect { multi_select: Some(values) } => Ok(
                values.filter_map(|value: SelectedValueView| complete_option(value)),
            ),
            PropertyValueView::MultiSelect { multi_select: None } => Err(
                mismatch(name, SchemaProblem::Empty),
            ),
            _ => Err(mismatch(name, SchemaProblem::WrongKind)),
        }
    }
}

/// The references under `name`, in their order. A row without such a property
/// refers to nothing. It fails where the property is no relation or carries
/// no list.
pub open spec fn references_of(row: RowView, name: Seq<char>) -> Result<
    Seq<Seq<char>>,
    ErrorView,
> {
    if !row.properties.contains_key(name) {
        Ok(Seq::empty())
    } else {
        match row.properties[name] {
            PropertyValueView::Relation { relation: Some(references) } => Ok(references),
            PropertyValueView::Relation { relation: None } => Err(
                mismatch(name, SchemaProblem::Empty),
            ),
            _ => Err(mismatch(name, SchemaProblem::WrongKind)),
        }
    }
}

/// Whether a chosen value has both its identifier and its name.
pub open spec fn is_complete(value: SelectedValueView) -> bool {
    value.id is Some && value.name is Some
}

/// The complete values of a multi-select and its options correspond one to
/// one, in order.
pub proof fn lemma_complete_options(values: Seq<SelectedValueView>)
    ensures
        values.filter_map(|value: SelectedValueView| complete_option(value))
            == values.filter(|value: SelectedValueView| is_complete(value)).map_values(
            |value: SelectedValueView| complete_option(value)->0,
        ),
    decreases values.len(),
{
    reveal(Seq::filter);
    let keep = |value: SelectedValueView| complete_option(value);
    let complete = |value: SelectedValueView| is_complete(value);
    let option = |value: SelectedValueView| complete_option(value)->0;
    if values.len() > 0 {
        let rest = values.drop_last();
        lemma_complete_options(rest);
        if is_complete(values.last()) {
            assert(rest.filter(complete).push(values.last()).map_values(option)
                =~= rest.filter(complete).map_values(option) + seq![option(values.last())]);
        }
    }
    assert(values.filter_map(keep) =~= values.filter(complete).map_values(option));
}

/// The multi-select is tolerant. Of a multi-select with a list of values, the
/// extraction never fails, and it yields as many options as the values that
/// have both an identifier and a name: one for each, in order.
pub proof fn lemma_multi_select_is_tolerant(
    row: RowView,
    name: Seq<char>,
    values: Seq<SelectedValueView>,
)
    requires
        row.properties.contains_key(name),
        row.properties[name] == (PropertyValueView::MultiSelect { multi_select: Some(values) }),
    ensures
        options_of(row, name) is Ok,
        options_of(row, name)->Ok_0.len() == values.filter(
            |value: SelectedValueView| is_complete(value),
        ).len(),
        options_of(row, name)->Ok_0 == values.filter(
            |value: SelectedValueView| is_complete(value),
        ).map_values(|value: SelectedValueView| complete_option(value)->0),
{
    lemma_complete_options(values);
}

fn schema_error(name: &str, problem: SchemaProblem) -> (error: Error)
    ensures
        error@ == mismatch(name@, problem),
{
    Error::SchemaMismatch { property: String::from_str(name), problem }
}

/// Extracts the title under `name`.
pub fn extract_title(row: &Row, name: &str) -> (result: Result<String, Error>)
    ensures
        viewed(result) == title_of(row@, name@),
{
    match row.properties.get(name) {
        None => Err(schema_error(name, SchemaProblem::Missing)),
        Some(PropertyValue::Title { title }) => Ok(join_runs(title)),
        Some(_) => Err(schema_error(name, SchemaProblem::WrongKind)),
    }
}

/// Extracts the date under `name`.
pub fn extract_date(row: &Row, name: &str) -> (result: Result<DateValue, Error>)
    ensures
        viewed(result) == date_of(row@, name@),
{
    match row.properties.get(name) {
        None => Err(schema_error(name, SchemaProblem::Missing)),
        Some(PropertyValue::Date { date: Some(date) }) => Ok(date.clone()),
        Some(PropertyValue::Date { date: None }) => Err(schema_error(name, SchemaProblem::Empty)),
        Some(_) => Err(schema_error(name, SchemaProblem::WrongKind)),
    }
}

/// The option that a chosen value stands for, if it is complete.
pub fn select_option(value: &SelectedValue) -> (option: Option<SelectOption>)
    ensures
        option.deep_view() == complete_option(value@),
{
    match (&value.id, &value.name) {
        (Some(id), Some(name)) => Some(
            SelectOption { id: id.clone(), name: name.clone(), color: value.color },
        ),
        _ => None,
    }
}

/// Extracts the status under `name`.
pub fn extract_status(row: &Row, name: &str) -> (result: Result<SelectOption, Error>)
    ensures
        viewed(result) == status_of(row@, name@),
{
    match row.properties.get(name) {
        None => Err(schema_error(name, SchemaProblem::Missing)),
        Some(PropertyValue::Status { status: Some(status) }) => match select_option(status) {
            Some(option) => Ok(option),
            None => Err(schema_error(name, SchemaProblem::Incomplete)),
        },
        Some(PropertyValue::Status { status: None }) => Err(
            schema_error(name, SchemaProblem::Empty),
        ),
        Some(_) => Err(schema_error(name, SchemaProblem::WrongKind)),
    }
}

/// The complete options among `values`, in order.
fn complete_options(values: &Vec<SelectedValue>) -> (options: Vec<SelectOption>)
    ensures
        options.deep_view() == values.deep_view().filter_map(
            |value: SelectedValueView| complete_option(value),
        ),
{
    let ghost keep = |value: SelectedValueView| complete_option(value);
    let mut options: Vec<SelectOption> = Vec::new();
    let mut i: usize = 0;
    assert(values.deep_view().take(0) =~= Seq::<SelectedValueView>::empty());
    assert(options.deep_view() =~= Seq::<SelectOptionView>::empty());
    while i < values.len()
        invariant
            i <= values.len(),
            keep == |value: SelectedValueView| complete_option(value),
            options.deep_view() == values.deep_view().take(i as int).filter_map(keep),
        decreases values.len() - i,
    {
        let ghost before = options.deep_view();
        proof {
            values.deep_view().lemma_filter_map_take_succ(keep, i as int);
        }
        match select_option(&values[i]) {
            Some(option) => {
                options.push(option);
                assert(options.deep_view() =~= before.push(option@));
            },
            None => {},
        }
        i += 1;
    }
    assert(values.deep_view().take(values.len() as int) =~= values.deep_view());
    options
}

/// Extracts the options of the multi-select under `name`.
pub fn extract_multi_select(row: &Row, name: &str) -> (result: Result<Vec<SelectOption>, Error>)
    ensures
        viewed(result) == options_of(row@, name@),
{
    match row.properties.get(name) {
        None => Err(schema_error(name, SchemaProblem::Missing)),
        Some(PropertyValue::MultiSelect { multi_select: Some(values) }) => Ok(
            complete_options(values),
        ),
        Some(PropertyValue::MultiSelect { multi_select: None }) => Err(
            schema_error(name, SchemaProblem::Empty),
        ),
        Some(_) => Err(schema_error(name, SchemaProblem::WrongKind)),
    }
}

/// Extracts the references of the relation under `name`: the rows to fetch.
pub fn extract_references(row: &Row, name: &str) -> (result: Result<Vec<String>, Error>)
    ensures
        viewed(result) == references_of(row@, name@),
{
    match row.properties.get(name) {
        None => {
            let none: Vec<String> = Vec::new();
            assert(none.deep_view() =~= Seq::<Seq<char>>::empty());
            Ok(none)
        },
        Some(PropertyValue::Relation { relation: Some(references) }) => {
            let copy = references.clone();
            assert(copy.deep_view() =~= references.deep_view());
            Ok(copy)
        },
        Some(PropertyValue::Relation { relation: None }) => Err(
            schema_error(name, SchemaProblem::Empty),
        ),
        Some(_) => Err(schema_error(name, SchemaProblem::WrongKind)),
    }
}

} // verus!
