use notion_tasks::name_map::NameMap;
use notion_tasks::text::{join_runs, same_text};

#[test]
fn new_map_is_empty() {
    let map: NameMap<u32> = NameMap::new();
    assert_eq!(map.len(), 0);
    assert_eq!(map.get("Name"), None);
}

#[test]
fn insert_then_get() {
    let mut map: NameMap<u32> = NameMap::new();
    assert_eq!(map.insert("Name".to_string(), 1), None);
    assert_eq!(map.insert("Status".to_string(), 2), None);
    assert_eq!(map.len(), 2);
    assert_eq!(map.get("Name"), Some(&1));
    assert_eq!(map.get("Status"), Some(&2));
    assert_eq!(map.get("name"), None);
    assert_eq!(map.get(""), None);
}

#[test]
fn insert_replaces_and_returns_previous() {
    let mut map: NameMap<u32> = NameMap::new();
    map.insert("a".to_string(), 1);
    map.insert("b".to_string(), 2);
    assert_eq!(map.insert("a".to_string(), 3), Some(1));
    assert_eq!(map.len(), 2);
    assert_eq!(map.get("a"), Some(&3));
    assert_eq!(map.get("b"), Some(&2));
}

#[test]
fn entries_keep_insertion_order() {
    let mut map: NameMap<u32> = NameMap::new();
    map.insert("z".to_string(), 26);
    map.insert("a".to_string(), 1);
    map.insert("m".to_string(), 13);
    map.insert("a".to_string(), 100);
    assert_eq!(map.len(), 3);
    assert_eq!(map.name_at(0), "z");
    assert_eq!(map.name_at(1), "a");
    assert_eq!(map.name_at(2), "m");
    assert_eq!(*map.value_at(0), 26);
    assert_eq!(*map.value_at(1), 100);
    assert_eq!(*map.value_at(2), 13);
}

#[test]
fn same_text_compares_characters() {
    assert!(same_text("", ""));
    assert!(same_text("Due Date", "Due Date"));
    assert!(!same_text("Due Date", "Due date"));
    assert!(!same_text("Due", "Due Date"));
    assert!(!same_text("Due Date", "Due"));
    assert!(same_text("t\u{e2}che \u{1f4c5}", "t\u{e2}che \u{1f4c5}"));
    assert!(!same_text("t\u{e2}che", "tache"));
}

#[test]
fn join_runs_concatenates_in_order() {
    assert_eq!(join_runs(&vec![]), "");
    assert_eq!(join_runs(&vec!["Write".to_string()]), "Write");
    assert_eq!(
        join_runs(&vec!["Write ".to_string(), "".to_string(), "the ".to_string(), "report".to_string()]),
        "Write the report"
    );
}
