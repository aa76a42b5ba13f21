//! The records that the projection produces.

use vstd::prelude::*;
use crate::model::{Color, DateValue, DateValueView, Icon, IconView, PropertyValue, PropertyValueView};
use crate::name_map::NameMap;

verus! {

/// A single choice, with its identifier and its name both known.
#[derive(Debug, PartialEq, Eq)]
pub struct SelectOption {
    pub id: String,
    pub name: String,
    pub color: Color,
}

pub struct SelectOptionView {
    pub id: Seq<char>,
    pub name: Seq<char>,
    pub color: Color,
}

impl DeepView for SelectOption {
    type V = SelectOptionView;

    open spec fn deep_view(&self) -> SelectOptionView {
        SelectOptionView { id: self.id@, name: self.name@, color: self.color }
    }
}

impl View for SelectOption {
    type V = SelectOptionView;

    open spec fn view(&self) -> SelectOptionView {
        self.deep_view()
    }
}

/// A reference to another row, with what it takes to show it as a link.
#[derive(Debug, PartialEq, Eq)]
pub struct RelationLink {
    /// The identifier as the relation property gave it.
    pub id: String,
    /// The title of the referenced row, if it has one.
    pub name: Option<String>,
    /// The icon of the referenced row, if it has one.
    pub icon: Option<Icon>,
}

pub struct RelationLinkView {
    pub id: Seq<char>,
    pub name: Option<Seq<char>>,
    pub icon: Option<IconView>,
}

impl DeepView for RelationLink {
    type V = RelationLinkView;

    open spec fn deep_view(&self) -> RelationLinkView {
        RelationLinkView {
            id: self.id@,
            name: self.name.deep_view(),
            icon: self.icon.deep_view(),
        }
    }
}

impl View for RelationLink {
    type V = RelationLinkView;

    open spec fn view(&self) -> RelationLinkView {
        self.deep_view()
    }
}

/// One task: the typed projection of one row.
#[derive(Debug, PartialEq, Eq)]
pub struct Task {
    pub id: String,
    pub name: String,
    pub due_date: DateValue,
    pub status: SelectOption,
    pub class: Vec<RelationLink>,
    pub type_: Vec<SelectOption>,
    /// Kept for properties that are passed through unmapped; always empty.
    pub extra_props: NameMap<PropertyValue>,
}

pub struct TaskView {
    pub id: Seq<char>,
    pub name: Seq<char>,
    pub due_date: DateValueView,
    pub status: SelectOptionView,
    pub class: Seq<RelationLinkView>,
    pub type_: Seq<SelectOptionView>,
    pub extra_props: Map<Seq<char>, PropertyValueView>,
}

impl DeepView for Task {
    type V = TaskView;

    open spec fn deep_view(&self) -> TaskView {
        TaskView {
            id: self.id@,
            name: self.name@,
            due_date: self.due_date@,
            status: self.status@,
            class: self.class.deep_view(),
            type_: self.type_.deep_view(),
            extra_props: self.extra_props.deep_view(),
        }
    }
}

impl View for Task {
    type V = TaskView;

    open spec fn view(&self) -> TaskView {
        self.deep_view()
    }
}

} // verus!
