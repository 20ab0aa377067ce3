use todo_api::model::{AppState, Timestamp, Todo, UpdateTodoSchema};
use todo_api::store::StoreError;

fn request(title: &str, content: &str) -> Todo {
    Todo {
        id: None,
        title: title.to_string(),
        content: content.to_string(),
        completed: None,
        createdAt: None,
        updatedAt: None,
    }
}

fn at(secs: i64, nanos: u32) -> Timestamp {
    Timestamp { secs, nanos }
}

fn three() -> AppState {
    let mut state = AppState::init();
    state.insert(request("A", "a"), "id-a".to_string(), at(1, 0)).unwrap();
    state.insert(request("B", "b"), "id-b".to_string(), at(2, 0)).unwrap();
    state.insert(request("C", "c"), "id-c".to_string(), at(3, 0)).unwrap();
    state
}

fn titles(todos: &[Todo]) -> Vec<String> {
    todos.iter().map(|t| t.title.clone()).collect()
}

#[test]
fn init_is_empty() {
    let state = AppState::init();
    assert!(state.todoDB.is_empty());
}

#[test]
fn insert_assigns_id_times_and_flag() {
    let mut state = AppState::init();
    let mut body = request("A", "x");
    body.id = Some("from-the-client".to_string());
    body.completed = Some(true);
    body.createdAt = Some(at(99, 9));
    body.updatedAt = Some(at(98, 8));
    let stored = state.insert(body, "id-1".to_string(), at(10, 500)).unwrap();
    assert_eq!(stored.id, Some("id-1".to_string()));
    assert_eq!(stored.title, "A");
    assert_eq!(stored.content, "x");
    assert_eq!(stored.completed, Some(false));
    assert_eq!(stored.createdAt, Some(at(10, 500)));
    assert_eq!(stored.updatedAt, Some(at(10, 500)));
    assert_eq!(state.todoDB.len(), 1);
    assert_eq!(state.todoDB[0].id, Some("id-1".to_string()));
    assert_eq!(state.todoDB[0].title, "A");
    assert_eq!(state.todoDB[0].content, "x");
    assert_eq!(state.todoDB[0].completed, Some(false));
    assert_eq!(state.todoDB[0].createdAt, Some(at(10, 500)));
    assert_eq!(state.todoDB[0].updatedAt, Some(at(10, 500)));
}

#[test]
fn insert_appends_in_order() {
    let state = three();
    assert_eq!(titles(&state.todoDB), vec!["A", "B", "C"]);
}

#[test]
fn insert_same_title_is_conflict_and_changes_nothing() {
    let mut state = three();
    let r = state.insert(request("B", "other"), "id-x".to_string(), at(9, 0));
    assert_eq!(r.err(), Some(StoreError::Conflict));
    assert_eq!(state.todoDB.len(), 3);
    assert_eq!(titles(&state.todoDB), vec!["A", "B", "C"]);
    assert_eq!(state.todoDB[1].content, "b");
    assert_eq!(state.todoDB[1].id, Some("id-b".to_string()));
}

#[test]
fn insert_title_match_is_exact_and_case_sensitive() {
    let mut state = three();
    assert!(state.insert(request("a", ""), "id-1".to_string(), at(4, 0)).is_ok());
    assert!(state.insert(request("A ", ""), "id-2".to_string(), at(5, 0)).is_ok());
    assert_eq!(state.todoDB.len(), 5);
}

#[test]
fn insert_empty_title_twice_is_conflict() {
    let mut state = AppState::init();
    assert!(state.insert(request("", "x"), "id-1".to_string(), at(1, 0)).is_ok());
    let r = state.insert(request("", "y"), "id-2".to_string(), at(2, 0));
    assert_eq!(r.err(), Some(StoreError::Conflict));
    assert_eq!(state.todoDB.len(), 1);
}

#[test]
fn title_taken_tells_stored_titles() {
    let state = three();
    assert!(state.title_taken(&"A".to_string()));
    assert!(state.title_taken(&"C".to_string()));
    assert!(!state.title_taken(&"D".to_string()));
    assert!(!state.title_taken(&"".to_string()));
    assert!(!AppState::init().title_taken(&"A".to_string()));
}

#[test]
fn position_is_the_first_match() {
    let mut state = three();
    state.todoDB[2].id = Some("id-a".to_string());
    assert_eq!(state.position(&"id-a".to_string()), Some(0));
    assert_eq!(state.position(&"id-b".to_string()), Some(1));
    assert_eq!(state.position(&"id-c".to_string()), None);
    assert_eq!(AppState::init().position(&"id-a".to_string()), None);
}

#[test]
fn position_skips_todos_without_id() {
    let mut state = three();
    state.todoDB[0].id = None;
    assert_eq!(state.position(&"id-a".to_string()), None);
    assert_eq!(state.position(&"".to_string()), None);
    assert_eq!(state.position(&"id-b".to_string()), Some(1));
}

#[test]
fn find_gives_a_copy() {
    let state = three();
    let found = state.find(&"id-b".to_string()).unwrap();
    assert_eq!(found.id, Some("id-b".to_string()));
    assert_eq!(found.title, "B");
    assert_eq!(found.content, "b");
    assert_eq!(found.completed, Some(false));
    assert_eq!(found.createdAt, Some(at(2, 0)));
    assert_eq!(found.updatedAt, Some(at(2, 0)));
    assert_eq!(state.todoDB.len(), 3);
}

#[test]
fn find_unknown_id_is_not_found() {
    let state = three();
    assert_eq!(state.find(&"id-z".to_string()).err(), Some(StoreError::NotFound));
    assert_eq!(AppState::init().find(&"id-a".to_string()).err(), Some(StoreError::NotFound));
}

#[test]
fn found_after_insert() {
    let mut state = three();
    let stored = state.insert(request("D", "d"), "id-d".to_string(), at(7, 70)).unwrap();
    let found = state.find(&stored.id.clone().unwrap()).unwrap();
    assert_eq!(found.title, "D");
    assert_eq!(found.content, "d");
    assert_eq!(found.completed, Some(false));
    assert_eq!(found.createdAt, found.updatedAt);
    assert_eq!(found.createdAt, Some(at(7, 70)));
}

#[test]
fn update_only_completed() {
    let mut state = three();
    let patch = UpdateTodoSchema { title: None, content: None, completed: Some(true) };
    let edited = state.update(&"id-b".to_string(), &patch, at(20, 5)).unwrap();
    assert_eq!(edited.id, Some("id-b".to_string()));
    assert_eq!(edited.title, "B");
    assert_eq!(edited.content, "b");
    assert_eq!(edited.completed, Some(true));
    assert_eq!(edited.createdAt, Some(at(2, 0)));
    assert_eq!(edited.updatedAt, Some(at(20, 5)));
    assert!(edited.updatedAt.unwrap().later_than(&at(2, 0)));
    assert_eq!(state.todoDB[1].completed, Some(true));
    assert_eq!(state.todoDB[1].updatedAt, Some(at(20, 5)));
    assert_eq!(state.todoDB[1].createdAt, Some(at(2, 0)));
    assert_eq!(state.todoDB[0].completed, Some(false));
    assert_eq!(state.todoDB[0].updatedAt, Some(at(1, 0)));
    assert_eq!(state.todoDB[2].completed, Some(false));
    assert_eq!(titles(&state.todoDB), vec!["A", "B", "C"]);
}

#[test]
fn update_completed_false_is_applied() {
    let mut state = three();
    let on = UpdateTodoSchema { title: None, content: None, completed: Some(true) };
    state.update(&"id-a".to_string(), &on, at(20, 0)).unwrap();
    let off = UpdateTodoSchema { title: None, content: None, completed: Some(false) };
    let edited = state.update(&"id-a".to_string(), &off, at(21, 0)).unwrap();
    assert_eq!(edited.completed, Some(false));
    assert_eq!(state.todoDB[0].completed, Some(false));
    assert_eq!(state.todoDB[0].updatedAt, Some(at(21, 0)));
}

#[test]
fn update_without_completed_keeps_the_flag() {
    let mut state = three();
    let on = UpdateTodoSchema { title: None, content: None, completed: Some(true) };
    state.update(&"id-a".to_string(), &on, at(20, 0)).unwrap();
    let nothing = UpdateTodoSchema { title: None, content: None, completed: None };
    let edited = state.update(&"id-a".to_string(), &nothing, at(22, 0)).unwrap();
    assert_eq!(edited.completed, Some(true));
    assert_eq!(edited.title, "A");
    assert_eq!(edited.content, "a");
    assert_eq!(edited.updatedAt, Some(at(22, 0)));
}

#[test]
fn update_supplied_text_does_not_replace_stored_text() {
    let mut state = three();
    let patch = UpdateTodoSchema {
        title: Some("New title".to_string()),
        content: Some("New content".to_string()),
        completed: None,
    };
    let edited = state.update(&"id-c".to_string(), &patch, at(30, 0)).unwrap();
    assert_eq!(edited.title, "C");
    assert_eq!(edited.content, "c");
    assert_eq!(edited.updatedAt, Some(at(30, 0)));
    assert_eq!(state.todoDB[2].title, "C");
    assert_eq!(state.todoDB[2].content, "c");
}

#[test]
fn update_supplied_empty_text_clears_the_field() {
    let mut state = three();
    let patch = UpdateTodoSchema {
        title: Some(String::new()),
        content: Some(String::new()),
        completed: None,
    };
    let edited = state.update(&"id-c".to_string(), &patch, at(30, 0)).unwrap();
    assert_eq!(edited.title, "");
    assert_eq!(edited.content, "");
    assert_eq!(state.todoDB[2].title, "");
    assert_eq!(state.todoDB[2].content, "");
    assert_eq!(state.todoDB[2].id, Some("id-c".to_string()));
    assert_eq!(titles(&state.todoDB), vec!["A", "B", ""]);
}

#[test]
fn update_clears_one_field_and_keeps_the_other() {
    let mut state = three();
    let patch = UpdateTodoSchema {
        title: Some(String::new()),
        content: Some("kept out".to_string()),
        completed: Some(true),
    };
    let edited = state.update(&"id-a".to_string(), &patch, at(30, 0)).unwrap();
    assert_eq!(edited.title, "");
    assert_eq!(edited.content, "a");
    assert_eq!(edited.completed, Some(true));
}

#[test]
fn update_unknown_id_is_not_found_and_changes_nothing() {
    let mut state = three();
    let patch = UpdateTodoSchema {
        title: Some(String::new()),
        content: None,
        completed: Some(true),
    };
    let r = state.update(&"id-z".to_string(), &patch, at(40, 0));
    assert_eq!(r.err(), Some(StoreError::NotFound));
    assert_eq!(titles(&state.todoDB), vec!["A", "B", "C"]);
    for (i, todo) in state.todoDB.iter().enumerate() {
        assert_eq!(todo.completed, Some(false));
        assert_eq!(todo.updatedAt, Some(at(i as i64 + 1, 0)));
        assert_eq!(todo.createdAt, Some(at(i as i64 + 1, 0)));
    }
}

#[test]
fn update_edits_only_the_first_of_equal_ids() {
    let mut state = three();
    state.todoDB[2].id = Some("id-a".to_string());
    let patch = UpdateTodoSchema { title: None, content: None, completed: Some(true) };
    state.update(&"id-a".to_string(), &patch, at(50, 0)).unwrap();
    assert_eq!(state.todoDB[0].completed, Some(true));
    assert_eq!(state.todoDB[2].completed, Some(false));
    assert_eq!(state.todoDB[2].updatedAt, Some(at(3, 0)));
}

#[test]
fn delete_removes_the_todo() {
    let mut state = three();
    assert_eq!(state.delete(&"id-b".to_string()), Ok(()));
    assert_eq!(titles(&state.todoDB), vec!["A", "C"]);
    assert_eq!(state.find(&"id-b".to_string()).err(), Some(StoreError::NotFound));
    assert_eq!(state.delete(&"id-b".to_string()), Err(StoreError::NotFound));
    assert_eq!(titles(&state.todoDB), vec!["A", "C"]);
}

#[test]
fn delete_first_and_last() {
    let mut state = three();
    assert_eq!(state.delete(&"id-a".to_string()), Ok(()));
    assert_eq!(titles(&state.todoDB), vec!["B", "C"]);
    assert_eq!(state.delete(&"id-c".to_string()), Ok(()));
    assert_eq!(titles(&state.todoDB), vec!["B"]);
    assert_eq!(state.delete(&"id-b".to_string()), Ok(()));
    assert!(state.todoDB.is_empty());
    assert_eq!(state.delete(&"id-b".to_string()), Err(StoreError::NotFound));
}

#[test]
fn delete_unknown_id_is_not_found_and_changes_nothing() {
    let mut state = three();
    assert_eq!(state.delete(&"id-z".to_string()), Err(StoreError::NotFound));
    assert_eq!(titles(&state.todoDB), vec!["A", "B", "C"]);
    assert_eq!(AppState::init().delete(&"id-a".to_string()), Err(StoreError::NotFound));
}

#[test]
fn delete_removes_every_todo_with_the_id() {
    let mut state = three();
    state.insert(request("D", "d"), "id-d".to_string(), at(4, 0)).unwrap();
    state.todoDB[0].id = Some("id-c".to_string());
    state.todoDB[3].id = Some("id-c".to_string());
    assert_eq!(state.delete(&"id-c".to_string()), Ok(()));
    assert_eq!(titles(&state.todoDB), vec!["B"]);
    assert_eq!(state.find(&"id-c".to_string()).err(), Some(StoreError::NotFound));
}

#[test]
fn delete_frees_the_title() {
    let mut state = three();
    state.delete(&"id-a".to_string()).unwrap();
    assert!(state.insert(request("A", "again"), "id-a2".to_string(), at(9, 0)).is_ok());
    assert_eq!(titles(&state.todoDB), vec!["B", "C", "A"]);
}

#[test]
fn list_window() {
    let state = three();
    assert_eq!(titles(&state.list(0, 10)), vec!["A", "B", "C"]);
    assert_eq!(titles(&state.list(0, 3)), vec!["A", "B", "C"]);
    assert_eq!(titles(&state.list(0, 2)), vec!["A", "B"]);
    assert_eq!(titles(&state.list(1, 1)), vec!["B"]);
    assert_eq!(titles(&state.list(1, 5)), vec!["B", "C"]);
    assert_eq!(titles(&state.list(2, 1)), vec!["C"]);
    assert_eq!(titles(&state.list(2, usize::MAX)), vec!["C"]);
}

#[test]
fn list_outside_is_empty() {
    let state = three();
    assert!(state.list(3, 10).is_empty());
    assert!(state.list(4, 10).is_empty());
    assert!(state.list(usize::MAX, usize::MAX).is_empty());
    assert!(state.list(0, 0).is_empty());
    assert!(state.list(1, 0).is_empty());
    assert!(AppState::init().list(0, 10).is_empty());
}

#[test]
fn list_gives_copies() {
    let state = three();
    let listed = state.list(1, 1);
    assert_eq!(listed[0].id, Some("id-b".to_string()));
    assert_eq!(listed[0].content, "b");
    assert_eq!(listed[0].completed, Some(false));
    assert_eq!(listed[0].createdAt, Some(at(2, 0)));
    assert_eq!(listed[0].updatedAt, Some(at(2, 0)));
    assert_eq!(state.todoDB.len(), 3);
}

#[test]
fn clone_keeps_every_field() {
    let todo = Todo {
        id: Some("i".to_string()),
        title: "t".to_string(),
        content: "c".to_string(),
        completed: Some(true),
        createdAt: Some(at(1, 2)),
        updatedAt: None,
    };
    let copy = todo.clone();
    assert_eq!(copy.id, Some("i".to_string()));
    assert_eq!(copy.title, "t");
    assert_eq!(copy.content, "c");
    assert_eq!(copy.completed, Some(true));
    assert_eq!(copy.createdAt, Some(at(1, 2)));
    assert_eq!(copy.updatedAt, None);
}

#[test]
fn later_than_orders_by_seconds_then_nanoseconds() {
    assert!(at(2, 0).later_than(&at(1, 999_999_999)));
    assert!(at(1, 1).later_than(&at(1, 0)));
    assert!(!at(1, 0).later_than(&at(1, 0)));
    assert!(!at(1, 0).later_than(&at(1, 1)));
    assert!(!at(0, 5).later_than(&at(1, 0)));
    assert!(at(0, 0).later_than(&at(-1, 5)));
}
