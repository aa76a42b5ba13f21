use notion_tasks::error::{Error, ErrorKind, SchemaProblem};
use notion_tasks::gather::gather;
use notion_tasks::model::{
    CalendarDate, Color, DateOrDateTime, DateValue, Icon, PropertyValue, Row, SelectedValue,
    Timestamp,
};
use notion_tasks::name_map::NameMap;
use notion_tasks::pipeline::run_pipeline;
use notion_tasks::project::{complete_row, plan_row, project_row};
use notion_tasks::relation::{link, resolve_relations, FetchOutcome, FetchedPage};
use notion_tasks::task::{RelationLink, SelectOption, Task};

fn due(year: i32, month: u32, day: u32) -> DateValue {
    DateValue {
        start: DateOrDateTime::Date(CalendarDate { year, month, day }),
        end: None,
        time_zone: None,
    }
}

fn status(id: &str, name: &str, color: Color) -> PropertyValue {
    PropertyValue::Status {
        status: Some(SelectedValue { id: Some(id.to_string()), name: Some(name.to_string()), color }),
    }
}

fn task_row(id: &str, name: &str, references: Option<Vec<&str>>) -> Row {
    let mut properties = NameMap::new();
    properties.insert("Name".to_string(), PropertyValue::Title { title: vec![name.to_string()] });
    properties.insert("Due Date".to_string(), PropertyValue::Date { date: Some(due(2024, 5, 17)) });
    properties.insert("Status".to_string(), status("abc", "Done", Color::Green));
    properties.insert("Type".to_string(), PropertyValue::MultiSelect { multi_select: Some(vec![]) });
    if let Some(references) = references {
        properties.insert(
            "Class".to_string(),
            PropertyValue::Relation {
                relation: Some(references.into_iter().map(|r| r.to_string()).collect()),
            },
        );
    }
    Row { id: id.to_string(), properties }
}

fn found(title: Option<&str>, icon: Option<Icon>) -> FetchOutcome {
    FetchOutcome::Found { page: FetchedPage { title: title.map(|t| t.to_string()), icon } }
}

fn failed(message: &str) -> FetchOutcome {
    FetchOutcome::Failed { message: message.to_string() }
}

fn done() -> SelectOption {
    SelectOption { id: "abc".to_string(), name: "Done".to_string(), color: Color::Green }
}

fn plain_task(id: &str, name: &str, class: Vec<RelationLink>) -> Task {
    Task {
        id: id.to_string(),
        name: name.to_string(),
        due_date: due(2024, 5, 17),
        status: done(),
        class,
        type_: vec![],
        extra_props: NameMap::new(),
    }
}

fn link_to(id: &str, name: Option<&str>) -> RelationLink {
    RelationLink { id: id.to_string(), name: name.map(|n| n.to_string()), icon: None }
}

#[test]
fn link_takes_its_id_from_the_reference() {
    let icon = Icon::Emoji { emoji: "\u{1f4d8}".to_string() };
    assert_eq!(
        link(&"ref-1".to_string(), &found(Some("Algebra"), Some(icon.clone()))),
        Ok(RelationLink { id: "ref-1".to_string(), name: Some("Algebra".to_string()), icon: Some(icon) })
    );
    assert_eq!(link(&"ref-2".to_string(), &found(None, None)), Ok(link_to("ref-2", None)));
    assert_eq!(
        link(&"ref-3".to_string(), &failed("object not found")),
        Err(Error::Referential { reference: "ref-3".to_string(), message: "object not found".to_string() })
    );
}

#[test]
fn icons_of_every_kind_pass_through() {
    let moment = Timestamp { seconds: 1_715_000_000, nanoseconds: 0 };
    let icons = vec![
        Icon::Emoji { emoji: "\u{2705}".to_string() },
        Icon::External { url: "https://example.org/a.png".to_string() },
        Icon::HostedFile { url: "https://files.example.org/b.png".to_string(), expiry_time: moment },
        Icon::LinkedFile { url: "https://example.org/c.png".to_string() },
    ];
    for icon in icons {
        let made = link(&"r".to_string(), &found(None, Some(icon.clone()))).unwrap();
        assert_eq!(made.icon, Some(icon));
    }
}

#[test]
fn relations_resolve_in_reference_order() {
    let references = vec!["c".to_string(), "a".to_string(), "b".to_string()];
    let outcomes = vec![found(Some("Chemistry"), None), found(None, None), found(Some("Biology"), None)];
    assert_eq!(
        resolve_relations(&references, &outcomes),
        Ok(vec![link_to("c", Some("Chemistry")), link_to("a", None), link_to("b", Some("Biology"))])
    );
}

#[test]
fn no_reference_resolves_to_no_link() {
    assert_eq!(resolve_relations(&vec![], &vec![]), Ok(vec![]));
}

#[test]
fn first_failed_fetch_fails_the_relation() {
    let references = vec!["a".to_string(), "b".to_string(), "c".to_string()];
    let outcomes = vec![found(Some("A"), None), failed("forbidden"), failed("object not found")];
    assert_eq!(
        resolve_relations(&references, &outcomes),
        Err(Error::Referential { reference: "b".to_string(), message: "forbidden".to_string() })
    );
}

#[test]
fn gather_keeps_order_or_returns_first_error() {
    let all: Vec<Result<u32, Error>> = vec![Ok(3), Ok(1), Ok(2)];
    assert_eq!(gather(all), Ok(vec![3, 1, 2]));
    let none: Vec<Result<u32, Error>> = vec![];
    assert_eq!(gather(none), Ok(vec![]));
    let some: Vec<Result<u32, Error>> = vec![
        Ok(3),
        Err(Error::Notion { message: "first".to_string() }),
        Ok(2),
        Err(Error::NoDatabase),
    ];
    assert_eq!(gather(some), Err(Error::Notion { message: "first".to_string() }));
}

#[test]
fn plan_names_the_rows_to_fetch() {
    let row = task_row("row-1", "Homework", Some(vec!["page-1", "page-2"]));
    let plan = plan_row(&row).unwrap();
    assert_eq!(plan.id, "row-1");
    assert_eq!(plan.name, "Homework");
    assert_eq!(plan.due_date, due(2024, 5, 17));
    assert_eq!(plan.status, done());
    assert_eq!(plan.type_, vec![]);
    assert_eq!(plan.references, vec!["page-1".to_string(), "page-2".to_string()]);
    let task = complete_row(plan, &vec![found(Some("Maths"), None), found(Some("Physics"), None)]);
    assert_eq!(
        task,
        Ok(plain_task("row-1", "Homework", vec![link_to("page-1", Some("Maths")), link_to("page-2", Some("Physics"))]))
    );
}

#[test]
fn status_round_trip_through_projection() {
    let row = task_row("row-1", "Homework", Some(vec![]));
    let task = project_row(&row, &vec![]).unwrap();
    assert_eq!(
        task.status,
        SelectOption { id: "abc".to_string(), name: "Done".to_string(), color: Color::Green }
    );
}

#[test]
fn extra_props_are_always_empty() {
    let mut row = task_row("row-1", "Homework", None);
    row.properties.insert("Notes".to_string(), PropertyValue::Other);
    let task = project_row(&row, &vec![]).unwrap();
    assert_eq!(task.extra_props.len(), 0);
}

#[test]
fn row_without_relation_has_no_class_and_no_fetch() {
    let row = task_row("row-1", "Homework", None);
    assert_eq!(plan_row(&row).unwrap().references, Vec::<String>::new());
    assert_eq!(project_row(&row, &vec![]), Ok(plain_task("row-1", "Homework", vec![])));
}

#[test]
fn tolerant_multi_select_in_a_task() {
    let mut row = task_row("row-1", "Homework", None);
    let option = |id: Option<&str>, name: Option<&str>| SelectedValue {
        id: id.map(|s| s.to_string()),
        name: name.map(|s| s.to_string()),
        color: Color::Yellow,
    };
    row.properties.insert(
        "Type".to_string(),
        PropertyValue::MultiSelect {
            multi_select: Some(vec![option(Some("1"), Some("A")), option(Some("2"), None), option(Some("3"), Some("C"))]),
        },
    );
    let task = project_row(&row, &vec![]).unwrap();
    assert_eq!(task.type_.len(), 2);
    assert_eq!(task.type_[0].name, "A");
    assert_eq!(task.type_[1].name, "C");
}

#[test]
fn each_failed_extraction_fails_the_row() {
    let mismatch = |property: &str, problem: SchemaProblem| {
        Err::<Task, Error>(Error::SchemaMismatch { property: property.to_string(), problem })
    };
    let mut no_name = task_row("r", "x", None);
    no_name.properties.insert("Name".to_string(), PropertyValue::Other);
    assert_eq!(project_row(&no_name, &vec![]), mismatch("Name", SchemaProblem::WrongKind));

    let mut no_date = task_row("r", "x", None);
    no_date.properties.insert("Due Date".to_string(), PropertyValue::Date { date: None });
    assert_eq!(project_row(&no_date, &vec![]), mismatch("Due Date", SchemaProblem::Empty));

    let mut no_status = task_row("r", "x", None);
    no_status.properties.insert("Status".to_string(), PropertyValue::Status { status: None });
    assert_eq!(project_row(&no_status, &vec![]), mismatch("Status", SchemaProblem::Empty));

    let mut bad_class = task_row("r", "x", None);
    bad_class.properties.insert("Class".to_string(), PropertyValue::Other);
    assert_eq!(project_row(&bad_class, &vec![]), mismatch("Class", SchemaProblem::WrongKind));

    let mut no_type = task_row("r", "x", None);
    no_type.properties.insert("Type".to_string(), PropertyValue::MultiSelect { multi_select: None });
    assert_eq!(project_row(&no_type, &vec![]), mismatch("Type", SchemaProblem::Empty));

    let empty = Row { id: "r".to_string(), properties: NameMap::new() };
    assert_eq!(project_row(&empty, &vec![]), mismatch("Name", SchemaProblem::Missing));
}

#[test]
fn earlier_property_decides_the_error() {
    let mut row = task_row("r", "x", None);
    row.properties.insert("Status".to_string(), PropertyValue::Other);
    row.properties.insert("Due Date".to_string(), PropertyValue::Other);
    assert_eq!(
        project_row(&row, &vec![]),
        Err(Error::SchemaMismatch { property: "Due Date".to_string(), problem: SchemaProblem::WrongKind })
    );
}

#[test]
fn pipeline_keeps_row_order() {
    let rows = vec![
        task_row("row-3", "Third", Some(vec!["b", "a"])),
        task_row("row-1", "First", None),
        task_row("row-2", "Second", Some(vec![])),
    ];
    let outcomes = vec![vec![found(Some("B"), None), found(Some("A"), None)], vec![], vec![]];
    assert_eq!(
        run_pipeline(&rows, &outcomes),
        Ok(vec![
            plain_task("row-3", "Third", vec![link_to("b", Some("B")), link_to("a", Some("A"))]),
            plain_task("row-1", "First", vec![]),
            plain_task("row-2", "Second", vec![]),
        ])
    );
}

#[test]
fn pipeline_of_no_rows_is_empty() {
    assert_eq!(run_pipeline(&vec![], &vec![]), Ok(vec![]));
}

#[test]
fn one_failing_row_fails_the_pipeline() {
    let mut broken = task_row("row-2", "Second", None);
    broken.properties.insert("Name".to_string(), PropertyValue::Other);
    let rows = vec![task_row("row-1", "First", None), broken, task_row("row-3", "Third", None)];
    assert_eq!(
        run_pipeline(&rows, &vec![vec![], vec![], vec![]]),
        Err(Error::SchemaMismatch { property: "Name".to_string(), problem: SchemaProblem::WrongKind })
    );
}

#[test]
fn first_failing_row_decides_the_error() {
    let mut broken = task_row("row-1", "First", None);
    broken.properties.insert("Status".to_string(), PropertyValue::Status { status: None });
    let rows = vec![broken, task_row("row-2", "Second", Some(vec!["gone"]))];
    assert_eq!(
        run_pipeline(&rows, &vec![vec![], vec![failed("object not found")]]),
        Err(Error::SchemaMismatch { property: "Status".to_string(), problem: SchemaProblem::Empty })
    );
}

#[test]
fn failed_relation_fetch_fails_the_whole_run() {
    let row_a = task_row("A", "Essay", Some(vec!["class-1"]));
    let row_b = task_row("B", "Exam", Some(vec!["class-2"]));
    assert_eq!(
        project_row(&row_a, &vec![found(Some("History"), None)]),
        Ok(plain_task("A", "Essay", vec![link_to("class-1", Some("History"))]))
    );
    let result = run_pipeline(
        &vec![row_a, row_b],
        &vec![vec![found(Some("History"), None)], vec![failed("object not found")]],
    );
    let error = result.unwrap_err();
    assert_eq!(error.kind(), ErrorKind::Referential);
    assert_eq!(
        error,
        Error::Referential { reference: "class-2".to_string(), message: "object not found".to_string() }
    );
    assert_eq!(error.message(), "Notion error: object not found");
}

#[test]
fn two_runs_yield_identical_tasks() {
    let rows = vec![task_row("row-1", "First", Some(vec!["a"])), task_row("row-2", "Second", None)];
    let outcomes = vec![vec![found(Some("A"), None)], vec![]];
    let kept = vec![task_row("row-1", "First", Some(vec!["a"])), task_row("row-2", "Second", None)];
    let first = run_pipeline(&rows, &outcomes);
    let second = run_pipeline(&rows, &outcomes);
    assert!(first.is_ok());
    assert_eq!(first, second);
    assert_eq!(rows, kept);
}
