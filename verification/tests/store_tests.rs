use todo_service::TodoStore;

#[test]
fn empty_store_lists_nothing() {
    let store = TodoStore::new();
    let listed = store.list_todos();
    assert_eq!(listed.len(), 0);
    assert_eq!(store.len(), 0);
}

#[test]
fn add_then_list_shows_one_record() {
    let mut store = TodoStore::new();
    let record = store.add_todo("buy milk".to_string());
    assert!(!record.id.is_empty());
    assert_eq!(record.task, "buy milk");
    assert!(!record.done);

    let listed = store.list_todos();
    assert_eq!(listed.len(), 1);
    let matching: Vec<_> = listed.iter().filter(|t| t.id == record.id).collect();
    assert_eq!(matching.len(), 1);
    assert_eq!(matching[0].task, "buy milk");
    assert!(!matching[0].done);
}

#[test]
fn generated_ids_are_hyphenated_uuids() {
    let mut store = TodoStore::new();
    let record = store.add_todo("anything".to_string());
    assert_eq!(record.id.len(), 36);
    let hyphens: Vec<usize> = record
        .id
        .char_indices()
        .filter(|(_, c)| *c == '-')
        .map(|(i, _)| i)
        .collect();
    assert_eq!(hyphens, vec![8, 13, 18, 23]);
    assert!(record
        .id
        .chars()
        .all(|c| c == '-' || c.is_ascii_hexdigit()));
}

#[test]
fn two_adds_with_equal_tasks_get_distinct_ids() {
    let mut store = TodoStore::new();
    let first = store.add_todo("same text".to_string());
    let second = store.add_todo("same text".to_string());
    assert_ne!(first.id, second.id);

    let listed = store.list_todos();
    assert_eq!(listed.len(), 2);
    assert!(listed.iter().any(|t| t.id == first.id));
    assert!(listed.iter().any(|t| t.id == second.id));
}

#[test]
fn delete_of_known_id_removes_and_confirms() {
    let mut store = TodoStore::new();
    let keep = store.add_todo("keep me".to_string());
    let gone = store.add_todo("remove me".to_string());

    let message = store.delete_todo(&gone.id);
    assert_eq!(message, format!("Deleted todo {}", gone.id));

    let listed = store.list_todos();
    assert_eq!(listed.len(), 1);
    assert!(listed.iter().all(|t| t.id != gone.id));
    assert!(listed.iter().any(|t| t.id == keep.id));
}

#[test]
fn delete_of_unknown_id_reports_not_found_and_changes_nothing() {
    let mut store = TodoStore::new();
    let record = store.add_todo("still here".to_string());

    let message = store.delete_todo(&"no-such-id".to_string());
    assert_eq!(message, "Todo not found");

    let listed = store.list_todos();
    assert_eq!(listed.len(), 1);
    assert_eq!(listed[0].id, record.id);
    assert_eq!(listed[0].task, "still here");
    assert!(!listed[0].done);
}

#[test]
fn delete_on_empty_store_reports_not_found() {
    let mut store = TodoStore::new();
    let message = store.delete_todo(&"anything".to_string());
    assert_eq!(message, "Todo not found");
    assert_eq!(store.len(), 0);
}

#[test]
fn contains_id_tracks_adds_and_deletes() {
    let mut store = TodoStore::new();
    assert!(!store.contains_id(&"missing".to_string()));
    let record = store.add_todo("watch me".to_string());
    assert!(store.contains_id(&record.id));
    store.delete_todo(&record.id);
    assert!(!store.contains_id(&record.id));
}

#[test]
fn hundred_adds_each_get_a_distinct_id() {
    let mut store = TodoStore::new();
    let mut ids: Vec<String> = Vec::new();
    for n in 0..100 {
        let record = store.add_todo(format!("task {}", n));
        assert!(!record.id.is_empty());
        assert!(!ids.contains(&record.id));
        ids.push(record.id);
    }
    assert_eq!(store.len(), 100);
    assert_eq!(store.list_todos().len(), 100);
}

#[test]
fn record_count_is_adds_minus_deletes() {
    let mut store = TodoStore::new();
    let mut ids: Vec<String> = Vec::new();
    for n in 0..10 {
        ids.push(store.add_todo(format!("task {}", n)).id);
    }
    let mut deleted: usize = 0;
    for id in ids.iter().step_by(2) {
        let message = store.delete_todo(id);
        assert_eq!(message, format!("Deleted todo {}", id));
        deleted += 1;
    }
    assert_eq!(store.len(), 10 - deleted);
    let listed = store.list_todos();
    assert_eq!(listed.len(), 10 - deleted);
    for (n, id) in ids.iter().enumerate() {
        let present = listed.iter().any(|t| &t.id == id);
        assert_eq!(present, n % 2 == 1);
    }
}

#[test]
fn listed_records_are_copies_with_same_fields() {
    let mut store = TodoStore::new();
    let record = store.add_todo(String::new());
    let listed = store.list_todos();
    assert_eq!(listed.len(), 1);
    assert_eq!(listed[0].id, record.id);
    assert_eq!(listed[0].task, "");
    assert!(!listed[0].done);
}
