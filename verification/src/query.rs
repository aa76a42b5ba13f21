//! The query orchestrator: which database to ask, and for what.

use vstd::prelude::*;
use vstd::string::*;
use crate::error::{viewed, Error, ErrorView, SchemaProblem};
use crate::extract::mismatch;
use crate::model::{copy_icon, Icon, IconView, Timestamp};
use crate::name_map::NameMap;
use crate::project::DUE_DATE_PROPERTY;
use crate::text::{join_runs, joined};

verus! {

/// The most rows that one query asks for.
pub const PAGE_SIZE: u8 = 10;

/// The kind of a property in a database's schema.
#[derive(Clone, Copy, Debug, PartialEq, Eq)]
pub enum PropertyKind {
    Title,
    Text,
    Number,
    Select,
    Status,
    MultiSelect,
    Date,
    People,
    Files,
    Checkbox,
    Url,
    Email,
    PhoneNumber,
    Formula,
    Relation,
    Rollup,
    CreatedTime,
    CreatedBy,
    LastEditedTime,
    LastEditedBy,
    UniqueId,
    Button,
}

/// One property of a database's schema.
#[derive(Debug, PartialEq, Eq)]
pub struct PropertySchema {
    pub id: String,
    pub kind: PropertyKind,
}

pub struct PropertySchemaView {
    pub id: Seq<char>,
    pub kind: PropertyKind,
}

impl DeepView for PropertySchema {
    type V = PropertySchemaView;

    open spec fn deep_view(&self) -> PropertySchemaView {
        PropertySchemaView { id: self.id@, kind: self.kind }
    }
}

impl View for PropertySchema {
    type V = PropertySchemaView;

    open spec fn view(&self) -> PropertySchemaView {
        self.deep_view()
    }
}

/// A database as the search reports it.
#[derive(Debug, PartialEq, Eq)]
pub struct Database {
    pub id: String,
    pub icon: Option<Icon>,
    /// The title, as the plain text of its runs.
    pub title: Vec<String>,
    pub properties: NameMap<PropertySchema>,
}

pub struct DatabaseView {
    pub id: Seq<char>,
    pub icon: Option<IconView>,
    pub title: Seq<Seq<char>>,
    pub properties: Map<Seq<char>, PropertySchemaView>,
}

impl DeepView for Database {
    type V = DatabaseView;

    open spec fn deep_view(&self) -> DatabaseView {
        DatabaseView {
            id: self.id@,
            icon: self.icon.deep_view(),
            title: self.title.deep_view(),
            properties: self.properties.deep_view(),
        }
    }
}

impl View for Database {
    type V = DatabaseView;

    open spec fn view(&self) -> DatabaseView {
        self.deep_view()
    }
}

/// A database reduced to what a client shows of it.
#[derive(Debug, PartialEq, Eq)]
pub struct DatabaseDisplay {
    pub id: String,
    pub icon: Option<Icon>,
    pub title: String,
    pub properties: NameMap<PropertySchema>,
}

pub struct DatabaseDisplayView {
    pub id: Seq<char>,
    pub icon: Option<IconView>,
    pub title: Seq<char>,
    pub properties: Map<Seq<char>, PropertySchemaView>,
}

impl DeepView for DatabaseDisplay {
    type V = DatabaseDisplayView;

    open spec fn deep_view(&self) -> DatabaseDisplayView {
        DatabaseDisplayView {
            id: self.id@,
            icon: self.icon.deep_view(),
            title: self.title@,
            properties: self.properties.deep_view(),
        }
    }
}

impl View for DatabaseDisplay {
    type V = DatabaseDisplayView;

    open spec fn view(&self) -> DatabaseDisplayView {
        self.deep_view()
    }
}

/// The query to send: rows whose date under `property` is on or after a
/// moment, a page of at most `page_size` of them.
#[derive(Debug, PartialEq, Eq)]
pub struct DatabaseQuery {
    /// The identifier of the date property to filter on.
    pub property: String,
    pub on_or_after: Timestamp,
    pub page_size: u8,
}

pub struct DatabaseQueryView {
    pub property: Seq<char>,
    pub on_or_after: Timestamp,
    pub page_size: u8,
}

impl DeepView for DatabaseQuery {
    type V = DatabaseQueryView;

    open spec fn deep_view(&self) -> DatabaseQueryView {
        DatabaseQueryView {
            property: self.property@,
            on_or_after: self.on_or_after,
            page_size: self.page_size,
        }
    }
}

impl View for DatabaseQuery {
    type V = DatabaseQueryView;

    open spec fn view(&self) -> DatabaseQueryView {
        self.deep_view()
    }
}

/// A query and the database to send it to.
#[derive(Debug, PartialEq, Eq)]
pub struct QueryPlan {
    pub database: String,
    pub query: DatabaseQuery,
}

pub struct QueryPlanView {
    pub database: Seq<char>,
    pub query: DatabaseQueryView,
}

impl DeepView for QueryPlan {
    type V = QueryPlanView;

    open spec fn deep_view(&self) -> QueryPlanView {
        QueryPlanView { database: self.database@, query: self.query@ }
    }
}

impl View for QueryPlan {
    type V = QueryPlanView;

    open spec fn view(&self) -> QueryPlanView {
        self.deep_view()
    }
}

/// The kinds of property that a display keeps.
pub open spec fn is_displayed(kind: PropertyKind) -> bool {
    match kind {
        PropertyKind::Date => true,
        PropertyKind::Title => true,
        PropertyKind::Select => true,
        PropertyKind::MultiSelect => true,
        PropertyKind::Relation => true,
        PropertyKind::Status => true,
        _ => false,
    }
}

/// Those of `properties` whose name is among `names` and whose kind a display keeps.
pub open spec fn displayed_among(
    names: Seq<Seq<char>>,
    properties: Map<Seq<char>, PropertySchemaView>,
) -> Map<Seq<char>, PropertySchemaView> {
    Map::new(
        |name: Seq<char>|
            names.contains(name) && properties.contains_key(name) && is_displayed(
                properties[name].kind,
            ),
        |name: Seq<char>| properties[name],
    )
}

/// Those of `properties` whose kind a display keeps.
pub open spec fn displayed_properties(properties: Map<Seq<char>, PropertySchemaView>) -> Map<
    Seq<char>,
    PropertySchemaView,
> {
    Map::new(
        |name: Seq<char>| properties.contains_key(name) && is_displayed(properties[name].kind),
        |name: Seq<char>| properties[name],
    )
}

/// The display of a database: its identifier and icon, its title as one
/// text, and the properties of the kinds that a display keeps.
pub open spec fn displayed(database: DatabaseView) -> DatabaseDisplayView {
    DatabaseDisplayView {
        id: database.id,
        icon: database.icon,
        title: joined(database.title),
        properties: displayed_properties(database.properties),
    }
}

/// The identifier of the date property called "Due Date". It fails where the
/// display has no property of that name, or has one that is no date.
pub open spec fn due_date_of(database: DatabaseDisplayView) -> Result<Seq<char>, ErrorView> {
    if !database.properties.contains_key(DUE_DATE_PROPERTY@) {
        Err(mismatch(DUE_DATE_PROPERTY@, SchemaProblem::Missing))
    } else if database.properties[DUE_DATE_PROPERTY@].kind != PropertyKind::Date {
        Err(mismatch(DUE_DATE_PROPERTY@, SchemaProblem::WrongKind))
    } else {
        Ok(database.properties[DUE_DATE_PROPERTY@].id)
    }
}

/// The query for the first of `databases`: its rows that are due at `now` or
/// later, one page of them. It fails where there is no database, or the
/// first one has no due date property.
pub open spec fn query_for(databases: Seq<DatabaseView>, now: Timestamp) -> Result<
    QueryPlanView,
    ErrorView,
> {
    if databases.len() == 0 {
        Err(ErrorView::NoDatabase)
    } else {
        match due_date_of(displayed(databases[0])) {
            Err(error) => Err(error),
            Ok(property) => Ok(
                QueryPlanView {
                    database: databases[0].id,
                    query: DatabaseQueryView { property, on_or_after: now, page_size: PAGE_SIZE },
                },
            ),
        }
    }
}

/// Whether a display keeps properties of this kind.
pub fn displays(kind: PropertyKind) -> (kept: bool)
    ensures
        kept == is_displayed(kind),
{
    match kind {
        PropertyKind::Date => true,
        PropertyKind::Title => true,
        PropertyKind::Select => true,
        PropertyKind::MultiSelect => true,
        PropertyKind::Relation => true,
        PropertyKind::Status => true,
        _ => false,
    }
}

/// The names among `names` whose property is of a kind that a display keeps,
/// in their order.
pub open spec fn displayed_names(
    names: Seq<Seq<char>>,
    properties: Map<Seq<char>, PropertySchemaView>,
) -> Seq<Seq<char>> {
    names.filter(|name: Seq<char>| is_displayed(properties[name].kind))
}

/// Reduces a database to its display. The properties that stay keep their order.
pub fn display_database(database: &Database) -> (display: DatabaseDisplay)
    ensures
        display@ == displayed(database@),
        display.properties.names() == displayed_names(
            database.properties.names(),
            database@.properties,
        ),
{
    let mut properties: NameMap<PropertySchema> = NameMap::new();
    let count = database.properties.len();
    let ghost names = database.properties.names();
    let ghost all = database.properties.deep_view();
    let mut i: usize = 0;
    assert(properties.deep_view() =~= displayed_among(names.take(0), all));
    proof {
        reveal(Seq::filter);
        assert(displayed_names(names.take(0), all) =~= Seq::<Seq<char>>::empty());
    }
    while i < count
        invariant
            i <= count,
            count == names.len(),
            names == database.properties.names(),
            names.no_duplicates(),
            all == database.properties.deep_view(),
            properties.deep_view() == displayed_among(names.take(i as int), all),
            properties.names() == displayed_names(names.take(i as int), all),
        decreases count - i,
    {
        let name = database.properties.name_at(i);
        let schema = database.properties.value_at(i);
        let ghost before = properties.deep_view();
        let ghost seen = names.take(i as int);
        let ghost goal = displayed_among(names.take(i + 1), all);
        proof {
            reveal(Seq::filter);
            assert(names.take(i + 1) =~= seen.push(name@));
            assert(names.take(i + 1).drop_last() =~= seen);
            assert(all.contains_key(name@) && all[name@] == schema@);
            // the name is new: it stands at one index only
            if seen.contains(name@) {
                let j = choose|j: int| 0 <= j < i && seen[j] == name@;
                assert(names[j] == names[i as int]);
            }
            assert(!before.contains_key(name@));
            assert(!properties@.contains_key(name@));
            assert forall|k: Seq<char>|
                names.take(i + 1).contains(k) <==> (seen.contains(k) || k == name@) by {
                if seen.contains(k) {
                    let j = choose|j: int| 0 <= j < i && seen[j] == k;
                    assert(names.take(i + 1)[j] == k);
                }
                if k == name@ {
                    assert(names.take(i + 1)[i as int] == k);
                }
            }
        }
        if displays(schema.kind) {
            properties.insert(
                name.clone(),
                PropertySchema { id: schema.id.clone(), kind: schema.kind },
            );
            assert(properties.deep_view() =~= before.insert(name@, schema@));
            assert(before.insert(name@, schema@) =~= goal);
        } else {
            assert(before =~= goal);
        }
        i += 1;
    }
    assert(names.take(count as int) =~= names);
    assert(displayed_among(names, all) =~= displayed_properties(all));
    DatabaseDisplay {
        id: database.id.clone(),
        icon: copy_icon(&database.icon),
        title: join_runs(&database.title),
        properties,
    }
}

/// Finds the identifier of the due date property of a display.
pub fn due_date_property(database: &DatabaseDisplay) -> (result: Result<String, Error>)
    ensures
        viewed(result) == due_date_of(database@),
{
    match database.properties.get(DUE_DATE_PROPERTY) {
        None => Err(
            Error::SchemaMismatch {
                property: String::from_str(DUE_DATE_PROPERTY),
                problem: SchemaProblem::Missing,
            },
        ),
        Some(schema) => match schema.kind {
            PropertyKind::Date => Ok(schema.id.clone()),
            _ => Err(
                Error::SchemaMismatch {
                    property: String::from_str(DUE_DATE_PROPERTY),
                    problem: SchemaProblem::WrongKind,
                },
            ),
        },
    }
}

/// The current moment, read from the system clock with `chrono::Utc::now`
/// (which `notion::models` hands on), as seconds and nanoseconds since the
/// Unix epoch. Nothing is claimed of the value: it is whatever the clock says.
/// `Utc::now` panics where the system clock is set before the epoch.
#[verifier::external_body]
fn current_moment() -> (now: Timestamp) {
    let now = notion::models::Utc::now();
    Timestamp { seconds: now.timestamp(), nanoseconds: now.timestamp_subsec_nanos() }
}

/// Plans the query for the first of the databases that a search found, for
/// the rows that are due from `now` on.
pub fn plan_query(databases: &Vec<Database>, now: Timestamp) -> (result: Result<QueryPlan, Error>)
    ensures
        viewed(result) == query_for(databases.deep_view(), now),
{
    if databases.len() == 0 {
        return Err(Error::NoDatabase);
    }
    let display = display_database(&databases[0]);
    match due_date_property(&display) {
        Err(error) => Err(error),
        Ok(property) => Ok(
            QueryPlan {
                database: display.id,
                query: DatabaseQuery { property, on_or_after: now, page_size: PAGE_SIZE },
            },
        ),
    }
}

/// Plans the query for the rows that are due from the current moment on.
/// Whatever the clock says, the plan is the one for that moment.
pub fn plan_current_query(databases: &Vec<Database>) -> (result: Result<QueryPlan, Error>)
    ensures
        exists|now: Timestamp| viewed(result) == #[trigger] query_for(databases.deep_view(), now),
{
    plan_query(databases, current_moment())
}

} // verus!
