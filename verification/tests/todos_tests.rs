use feature_flags::todos::{self, ListOptions, Todo};

fn todo(id: u64, text: &str) -> Todo {
    Todo {
        id,
        text: text.to_string(),
        completed: false,
    }
}

#[test]
fn test_create_todo() {
    let mut list: Vec<Todo> = Vec::new();

    let status = todos::create_todo(&mut list, todo(1, "test 1"));

    assert_eq!(status, 201);
    assert_eq!(list.len(), 1);
    assert_eq!(list[0].text, "test 1");
}

#[test]
fn test_create_todo_conflict() {
    let mut list: Vec<Todo> = vec![todo(1, "test 1")];

    let status = todos::create_todo(&mut list, todo(1, "test 1 again"));

    assert_eq!(status, 400);
    assert_eq!(list.len(), 1);
    assert_eq!(list[0].text, "test 1");
}

#[test]
fn test_update_todo_unknown_id() {
    let mut list: Vec<Todo> = Vec::new();

    let status = todos::update_todo(&mut list, 1, todo(1, "new text"));

    assert_eq!(status, 404);
    assert_eq!(list.len(), 0);
}

#[test]
fn test_update_todo_replaces_item() {
    let mut list: Vec<Todo> = vec![todo(1, "old"), todo(2, "other")];

    let status = todos::update_todo(&mut list, 1, todo(1, "new"));

    assert_eq!(status, 200);
    assert_eq!(list[0].text, "new");
    assert_eq!(list[1].text, "other");
}

#[test]
fn test_delete_todo() {
    let mut list: Vec<Todo> = vec![todo(1, "a"), todo(2, "b")];

    assert_eq!(todos::delete_todo(&mut list, 1), 204);
    assert_eq!(list.len(), 1);
    assert_eq!(list[0].id, 2);

    // A second delete finds nothing.
    assert_eq!(todos::delete_todo(&mut list, 1), 404);
    assert_eq!(list.len(), 1);
}

#[test]
fn test_list_todos_window() {
    let list: Vec<Todo> = vec![todo(1, "a"), todo(2, "b"), todo(3, "c")];

    let all = todos::list_todos(
        ListOptions {
            offset: None,
            limit: None,
        },
        &list,
    );
    assert_eq!(all.len(), 3);

    let tail = todos::list_todos(
        ListOptions {
            offset: Some(1),
            limit: None,
        },
        &list,
    );
    assert_eq!(tail.len(), 2);
    assert_eq!(tail[0].id, 2);

    let window = todos::list_todos(
        ListOptions {
            offset: Some(1),
            limit: Some(1),
        },
        &list,
    );
    assert_eq!(window.len(), 1);
    assert_eq!(window[0].id, 2);

    let beyond = todos::list_todos(
        ListOptions {
            offset: Some(9),
            limit: Some(5),
        },
        &list,
    );
    assert_eq!(beyond.len(), 0);
}
