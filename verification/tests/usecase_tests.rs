use todo_service::{
    AppState, InMemoryTodoRepository, MockTodoRepository, RepoError, Todo, TodoUsecase,
};

fn create_test_todo(title: &str, description: Option<&str>) -> Todo {
    let now = chrono::Utc::now()
        .timestamp_nanos_opt()
        .unwrap_or(i64::MAX);
    Todo {
        id: uuid::Uuid::now_v7().as_u128(),
        title: title.to_string(),
        description: description.map(|s| s.to_string()),
        completed: false,
        created_at: now,
        updated_at: now,
    }
}

#[test]
fn test_get_all_todos() {
    let mut mock_repo = MockTodoRepository::new();

    let todos = vec![
        create_test_todo("タスク1", Some("説明1")),
        create_test_todo("タスク2", Some("説明2")),
    ];

    mock_repo.expect_find_all(1, Ok(todos));

    let mut usecase = TodoUsecase::new(mock_repo);

    let result = usecase.get_all_todos().unwrap();

    assert_eq!(result.len(), 2);
    assert_eq!(result[0].title, "タスク1");
    assert_eq!(result[1].title, "タスク2");
}

#[test]
fn test_get_all_todos_verifies_mock_count() {
    let mut mock_repo = MockTodoRepository::new();
    mock_repo.expect_find_all(1, Ok(vec![]));
    let mut usecase = TodoUsecase::new(mock_repo);
    let _ = usecase.get_all_todos().unwrap();
    assert!(usecase.repo.verify());
}

#[test]
fn test_create_todo_sets_defaults() {
    let mut usecase = TodoUsecase::new(InMemoryTodoRepository::new());
    let created = usecase
        .create_todo("買い出し".to_string(), Some("牛乳とパン".to_string()))
        .unwrap();
    assert_eq!(created.title, "買い出し");
    assert_eq!(created.description, Some("牛乳とパン".to_string()));
    assert!(!created.completed);
    assert_eq!(created.created_at, created.updated_at);
    assert_eq!((created.id >> 76) & 0xf, 7);
}

#[test]
fn test_get_todo_absent_fails_not_found() {
    let mut usecase = TodoUsecase::new(InMemoryTodoRepository::new());
    assert_eq!(usecase.get_todo(31337), Err(RepoError::NotFound));
}

#[test]
fn test_partial_update_retains_fields() {
    let mut usecase = TodoUsecase::new(InMemoryTodoRepository::new());
    let created = usecase
        .create_todo("旧題".to_string(), Some("据え置きの説明".to_string()))
        .unwrap();

    let updated = usecase
        .update_todo(created.id, Some("X".to_string()), None, None)
        .unwrap();

    assert_eq!(updated.id, created.id);
    assert_eq!(updated.title, "X");
    assert_eq!(updated.description, Some("据え置きの説明".to_string()));
    assert!(!updated.completed);
    assert_eq!(updated.created_at, created.created_at);
    assert!(updated.updated_at >= updated.created_at);
}

#[test]
fn test_update_todo_absent_fails_not_found() {
    let mut usecase = TodoUsecase::new(InMemoryTodoRepository::new());
    let outcome = usecase.update_todo(777, Some("X".to_string()), None, None);
    assert_eq!(outcome, Err(RepoError::NotFound));
    assert_eq!(usecase.get_all_todos().unwrap().len(), 0);
}

#[test]
fn test_delete_twice_succeeds_then_fails_not_found() {
    let mut usecase = TodoUsecase::new(InMemoryTodoRepository::new());
    let created = usecase
        .create_todo("一度だけ".to_string(), None)
        .unwrap();

    assert_eq!(usecase.delete_todo(created.id), Ok(()));
    assert_eq!(usecase.delete_todo(created.id), Err(RepoError::NotFound));
}

#[test]
fn test_end_to_end_lifecycle() {
    let mut usecase = TodoUsecase::new(InMemoryTodoRepository::new());

    let created = usecase
        .create_todo("Buy milk".to_string(), None)
        .unwrap();

    let found = usecase.get_todo(created.id).unwrap();
    assert_eq!(found.title, "Buy milk");
    assert!(!found.completed);
    assert_eq!(found.created_at, found.updated_at);

    let updated = usecase
        .update_todo(created.id, None, None, Some(true))
        .unwrap();
    let found = usecase.get_todo(created.id).unwrap();
    assert!(found.completed);
    assert!(found.updated_at > found.created_at);
    assert_eq!(found.updated_at, updated.updated_at);

    usecase.delete_todo(created.id).unwrap();
    assert_eq!(usecase.get_todo(created.id), Err(RepoError::NotFound));
}

#[test]
fn test_refresh_instant_takes_advanced_clock() {
    assert_eq!(todo_service::refresh_instant(500, 300), 500);
    assert!(todo_service::refresh_instant(500, 300) > 300);
}

#[test]
fn test_refresh_instant_never_precedes_creation() {
    assert_eq!(todo_service::refresh_instant(200, 700), 700);
    assert_eq!(todo_service::refresh_instant(700, 700), 700);
}

#[test]
fn test_app_state_shares_service() {
    let usecase = TodoUsecase::new(InMemoryTodoRepository::new());
    let state = AppState::new(usecase);
    let other = state.todo_service.clone();
    assert!(std::sync::Arc::ptr_eq(&state.todo_service, &other));
}
