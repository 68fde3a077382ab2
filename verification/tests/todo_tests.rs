use todo_service::{Todo, TodoResponse};

#[test]
fn test_new_todo() {
    let title = "テストタイトル";
    let description = "テスト説明";

    let todo = Todo::new(title.to_string(), description.to_string());

    assert_eq!(todo.title, title);
    assert_eq!(todo.description, Some(description.to_string()));

    assert!(!todo.completed);

    assert_eq!(todo.created_at, todo.updated_at);

    // The identifier carries the version-7 nibble of a time-ordered UUID.
    assert_eq!((todo.id >> 76) & 0xf, 7);

    // The creation instant is within a second of the current time.
    let now = chrono::Utc::now();
    let created = chrono::DateTime::from_timestamp_nanos(todo.created_at);
    let diff = now.signed_duration_since(created);
    assert!(diff.num_seconds().abs() < 1);
}

#[test]
fn test_from_parts_accepts_ordered_timestamps() {
    let todo = Todo::from_parts(
        42,
        "entry".to_string(),
        Some("detail".to_string()),
        true,
        100,
        250,
    )
    .unwrap();
    assert_eq!(todo.id, 42);
    assert_eq!(todo.title, "entry");
    assert_eq!(todo.description, Some("detail".to_string()));
    assert!(todo.completed);
    assert_eq!(todo.created_at, 100);
    assert_eq!(todo.updated_at, 250);
}

#[test]
fn test_from_parts_rejects_reversed_timestamps() {
    let todo = Todo::from_parts(7, "entry".to_string(), None, false, 250, 100);
    assert!(todo.is_none());
}

#[test]
fn test_clone_copies_every_field() {
    let todo = Todo::new("原本".to_string(), "複製の対象".to_string());
    let copy = todo.clone();
    assert_eq!(copy.id, todo.id);
    assert_eq!(copy.title, todo.title);
    assert_eq!(copy.description, todo.description);
    assert_eq!(copy.completed, todo.completed);
    assert_eq!(copy.created_at, todo.created_at);
    assert_eq!(copy.updated_at, todo.updated_at);
}

#[test]
fn test_response_carries_every_field() {
    let todo = Todo::new("応答".to_string(), "全項目".to_string());
    let id = todo.id;
    let created_at = todo.created_at;
    let updated_at = todo.updated_at;
    let response = TodoResponse::from(todo);
    assert_eq!(response.id, id);
    assert_eq!(response.title, "応答");
    assert_eq!(response.description, Some("全項目".to_string()));
    assert!(!response.completed);
    assert_eq!(response.created_at, created_at);
    assert_eq!(response.updated_at, updated_at);
}

#[test]
fn test_error_descriptions() {
    assert_eq!(
        todo_service::RepoError::NotFound.describe(),
        "resource not found"
    );
    assert_eq!(
        todo_service::RepoError::Storage.describe(),
        "storage failure"
    );
}
