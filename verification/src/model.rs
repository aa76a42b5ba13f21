//! Rows as the remote store hands them out: an identifier and a map from
//! property name to a tagged property value.

use vstd::prelude::*;
use crate::name_map::NameMap;

verus! {

/// The colour of a select option.
#[derive(Clone, Copy, Debug, PartialEq, Eq)]
pub enum Color {
    Default,
    Gray,
    Brown,
    Orange,
    Yellow,
    Green,
    Blue,
    Purple,
    Pink,
    Red,
}

/// A day of the calendar, without a time.
#[derive(Clone, Copy, Debug, PartialEq, Eq)]
pub struct CalendarDate {
    pub year: i32,
    pub month: u32,
    pub day: u32,
}

/// A moment in UTC, counted from the Unix epoch.
#[derive(Clone, Copy, Debug, PartialEq, Eq)]
pub struct Timestamp {
    pub seconds: i64,
    pub nanoseconds: u32,
}

/// One end of a date value: a whole day or a moment.
#[derive(Clone, Copy, Debug, PartialEq, Eq)]
pub enum DateOrDateTime {
    Date(CalendarDate),
    DateTime(Timestamp),
}

/// A copy of an optional string.
pub fn copy_text(text: &Option<String>) -> (copy: Option<String>)
    ensures
        copy == *text,
{
    match text {
        Some(t) => Some(t.clone()),
        None => None,
    }
}

/// The payload of a date property.
#[derive(Debug, PartialEq, Eq)]
pub struct DateValue {
    pub start: DateOrDateTime,
    pub end: Option<DateOrDateTime>,
    pub time_zone: Option<String>,
}

pub struct DateValueView {
    pub start: DateOrDateTime,
    pub end: Option<DateOrDateTime>,
    pub time_zone: Option<Seq<char>>,
}

impl DeepView for DateValue {
    type V = DateValueView;

    open spec fn deep_view(&self) -> DateValueView {
        DateValueView { start: self.start, end: self.end, time_zone: self.time_zone.deep_view() }
    }
}

impl View for DateValue {
    type V = DateValueView;

    open spec fn view(&self) -> DateValueView {
        self.deep_view()
    }
}

impl Clone for DateValue {
    fn clone(&self) -> (copy: Self)
        ensures
            copy == *self,
    {
        DateValue { start: self.start, end: self.end, time_zone: copy_text(&self.time_zone) }
    }
}

/// The icon of a page.
#[derive(Debug, PartialEq, Eq)]
pub enum Icon {
    /// An emoji, as text.
    Emoji { emoji: String },
    /// A picture at an address outside the store.
    External { url: String },
    /// A file that the store hosts; its address expires.
    HostedFile { url: String, expiry_time: Timestamp },
    /// A file that the store only links to.
    LinkedFile { url: String },
}

pub enum IconView {
    Emoji { emoji: Seq<char> },
    External { url: Seq<char> },
    HostedFile { url: Seq<char>, expiry_time: Timestamp },
    LinkedFile { url: Seq<char> },
}

impl DeepView for Icon {
    type V = IconView;

    open spec fn deep_view(&self) -> IconView {
        match *self {
            Icon::Emoji { emoji } => IconView::Emoji { emoji: emoji@ },
            Icon::External { url } => IconView::External { url: url@ },
            Icon::HostedFile { url, expiry_time } => IconView::HostedFile {
                url: url@,
                expiry_time,
            },
            Icon::LinkedFile { url } => IconView::LinkedFile { url: url@ },
        }
    }
}

impl View for Icon {
    type V = IconView;

    open spec fn view(&self) -> IconView {
        self.deep_view()
    }
}

impl Clone for Icon {
    fn clone(&self) -> (copy: Self)
        ensures
            copy == *self,
    {
        match self {
            Icon::Emoji { emoji } => Icon::Emoji { emoji: emoji.clone() },
            Icon::External { url } => Icon::External { url: url.clone() },
            Icon::HostedFile { url, expiry_time } => Icon::HostedFile {
                url: url.clone(),
                expiry_time: *expiry_time,
            },
            Icon::LinkedFile { url } => Icon::LinkedFile { url: url.clone() },
        }
    }
}

/// A copy of an optional icon.
pub fn copy_icon(icon: &Option<Icon>) -> (copy: Option<Icon>)
    ensures
        copy == *icon,
{
    match icon {
        Some(i) => Some(i.clone()),
        None => None,
    }
}

/// A chosen option as the store reports it: the identifier and the name may be absent.
#[derive(Debug, PartialEq, Eq)]
pub struct SelectedValue {
    pub id: Option<String>,
    pub name: Option<String>,
    pub color: Color,
}

pub struct SelectedValueView {
    pub id: Option<Seq<char>>,
    pub name: Option<Seq<char>>,
    pub color: Color,
}

impl DeepView for SelectedValue {
    type V = SelectedValueView;

    open spec fn deep_view(&self) -> SelectedValueView {
        SelectedValueView {
            id: self.id.deep_view(),
            name: self.name.deep_view(),
            color: self.color,
        }
    }
}

impl View for SelectedValue {
    type V = SelectedValueView;

    open spec fn view(&self) -> SelectedValueView {
        self.deep_view()
    }
}

/// The value of a property, tagged by its kind.
#[derive(Debug, PartialEq, Eq)]
pub enum PropertyValue {
    /// The title, as the plain text of its runs.
    Title { title: Vec<String> },
    Date { date: Option<DateValue> },
    Status { status: Option<SelectedValue> },
    MultiSelect { multi_select: Option<Vec<SelectedValue>> },
    /// References to other rows, each by its identifier.
    Relation { relation: Option<Vec<String>> },
    /// A property of a kind that the projection does not read.
    Other,
}

pub enum PropertyValueView {
    Title { title: Seq<Seq<char>> },
    Date { date: Option<DateValueView> },
    Status { status: Option<SelectedValueView> },
    MultiSelect { multi_select: Option<Seq<SelectedValueView>> },
    Relation { relation: Option<Seq<Seq<char>>> },
    Other,
}

impl DeepView for PropertyValue {
    type V = PropertyValueView;

    open spec fn deep_view(&self) -> PropertyValueView {
        match *self {
            PropertyValue::Title { title } => PropertyValueView::Title {
                title: title.deep_view(),
            },
            PropertyValue::Date { date } => PropertyValueView::Date { date: date.deep_view() },
            PropertyValue::Status { status } => PropertyValueView::Status {
                status: status.deep_view(),
            },
            PropertyValue::MultiSelect { multi_select } => PropertyValueView::MultiSelect {
                multi_select: multi_select.deep_view(),
            },
            PropertyValue::Relation { relation } => PropertyValueView::Relation {
                relation: relation.deep_view(),
            },
            PropertyValue::Other => PropertyValueView::Other,
        }
    }
}

impl View for PropertyValue {
    type V = PropertyValueView;

    open spec fn view(&self) -> PropertyValueView {
        self.deep_view()
    }
}

/// One record of the remote store.
#[derive(Debug, PartialEq, Eq)]
pub struct Row {
    pub id: String,
    pub properties: NameMap<PropertyValue>,
}

pub struct RowView {
    pub id: Seq<char>,
    pub properties: Map<Seq<char>, PropertyValueView>,
}

impl DeepView for Row {
    type V = RowView;

    open spec fn deep_view(&self) -> RowView {
        RowView {
            id: self.id@,
            properties: self.properties.deep_view(),
        }
    }
}

impl View for Row {
    type V = RowView;

    open spec fn view(&self) -> RowView {
        self.deep_view()
    }
}

} // verus!
