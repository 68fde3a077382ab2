use todo_service::{
    InMemoryTodoRepository, MockTodoRepository, RepoError, SharedTodoStore, Todo, TodoRepository,
};

#[test]
fn test_mock_repository() {
    let mut mock_repo = MockTodoRepository::new();

    mock_repo.expect_find_all(1, Ok(vec![]));

    let result = mock_repo.find_all().unwrap();

    assert_eq!(result.len(), 0);
}

#[test]
fn test_create_and_find_by_id() {
    let mut repo = InMemoryTodoRepository::new();

    let title = "テストタスク".to_string();
    let description = "テスト説明".to_string();
    let todo = Todo::new(title.clone(), description.clone());

    let created_todo = repo.create(todo).unwrap();

    let found_todo = repo.find_by_id(created_todo.id).unwrap();

    assert!(found_todo.is_some());
    let found_todo = found_todo.unwrap();
    assert_eq!(found_todo.id, created_todo.id);
    assert_eq!(found_todo.title, title);
    assert_eq!(found_todo.description, Some(description));
    assert!(!found_todo.completed);

    repo.delete(created_todo.id).unwrap();
}

#[test]
fn test_find_all_keeps_insertion_order() {
    let mut repo = InMemoryTodoRepository::new();
    let first = repo
        .create(Todo::new("一".to_string(), "最初".to_string()))
        .unwrap();
    let second = repo
        .create(Todo::new("二".to_string(), "次".to_string()))
        .unwrap();
    let all = repo.find_all().unwrap();
    assert_eq!(all.len(), 2);
    assert_eq!(all[0].id, first.id);
    assert_eq!(all[1].id, second.id);
}

#[test]
fn test_create_overwrites_existing_id() {
    let mut repo = InMemoryTodoRepository::new();
    let todo = Todo::new("元".to_string(), "上書き前".to_string());
    let id = todo.id;
    repo.create(todo).unwrap();

    let replacement = Todo::from_parts(
        id,
        "新".to_string(),
        Some("上書き後".to_string()),
        true,
        1,
        2,
    )
    .unwrap();
    repo.create(replacement).unwrap();

    let all = repo.find_all().unwrap();
    assert_eq!(all.len(), 1);
    let found = repo.find_by_id(id).unwrap().unwrap();
    assert_eq!(found.title, "新");
    assert!(found.completed);
}

#[test]
fn test_update_absent_fails_not_found_and_never_inserts() {
    let mut repo = InMemoryTodoRepository::new();
    let stray = Todo::new("迷子".to_string(), "未登録".to_string());
    let id = stray.id;

    let outcome = repo.update(stray);
    assert_eq!(outcome, Err(RepoError::NotFound));

    assert_eq!(repo.find_all().unwrap().len(), 0);
    assert!(repo.find_by_id(id).unwrap().is_none());
}

#[test]
fn test_delete_absent_fails_not_found() {
    let mut repo = InMemoryTodoRepository::new();
    assert_eq!(repo.delete(12345), Err(RepoError::NotFound));
}

#[test]
fn test_delete_then_find_absent() {
    let mut repo = InMemoryTodoRepository::new();
    let created = repo
        .create(Todo::new("消える".to_string(), "削除対象".to_string()))
        .unwrap();

    assert_eq!(repo.delete(created.id), Ok(()));
    assert!(repo.find_by_id(created.id).unwrap().is_none());
}

#[test]
fn test_mock_verification_counts() {
    // Expect one invocation, invoke zero times: verification fails.
    let mut untouched = MockTodoRepository::new();
    untouched.expect_find_all(1, Ok(vec![]));
    assert!(!untouched.verify());

    // Invoke exactly once: a list of length zero comes back, verification
    // succeeds.
    let mut once = MockTodoRepository::new();
    once.expect_find_all(1, Ok(vec![]));
    assert_eq!(once.find_all().unwrap().len(), 0);
    assert!(once.verify());

    // Invoke twice: verification fails.
    let mut twice = MockTodoRepository::new();
    twice.expect_find_all(1, Ok(vec![]));
    let _ = twice.find_all();
    let _ = twice.find_all();
    assert!(!twice.verify());
}

#[test]
fn test_unprogrammed_mock_reports_storage_failure() {
    let mut mock_repo = MockTodoRepository::new();
    assert_eq!(mock_repo.delete(9), Err(RepoError::Storage));
    assert_eq!(mock_repo.find_by_id(9), Err(RepoError::Storage));
}

#[test]
fn test_shared_store_crud() {
    let store = SharedTodoStore::new();

    let todo = Todo::new("共有".to_string(), "ロック越し".to_string());
    let id = todo.id;
    let created = store.create(todo);
    assert_eq!(created.id, id);

    let listed = store.find_all();
    assert_eq!(listed.len(), 1);
    assert_eq!(listed[0].id, id);

    let found = store.find_by_id(id).unwrap();
    assert_eq!(found.title, "共有");

    let mut changed = found;
    changed.completed = true;
    let updated = store.update(changed).unwrap();
    assert!(updated.completed);
    assert!(store.find_by_id(id).unwrap().completed);

    assert_eq!(store.delete(id), Ok(()));
    assert_eq!(store.delete(id), Err(RepoError::NotFound));
    assert!(store.find_by_id(id).is_none());
    assert_eq!(store.find_all().len(), 0);
}
