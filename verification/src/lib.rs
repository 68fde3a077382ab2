//! A task-tracking service core: the `Todo` entity, a swappable repository
//! contract, a concurrency-safe in-memory store, a programmable test double,
//! and the use-case service that enforces the business rules.

use vstd::prelude::*;

mod clock;
mod error;
mod ids;
mod memory;
mod mock;
mod repository;
mod todo;
mod usecase;

pub use error::RepoError;
pub use ids::id_version;
pub use memory::{all_wf, as_map, distinct_ids, has_id, InMemoryTodoRepository, SharedTodoStore};
pub use mock::{Expectation, MockTodoRepository};
pub use repository::{
    id_present, lemma_second_delete_finds_nothing, lemma_deleted_id_absent, lists_store,
    store_after_create, store_after_delete, store_after_update, TodoRepository,
};
pub use todo::{clone_todo_list, Todo, TodoResponse};
pub use usecase::{applies_update, found_to_outcome, fresh_record, refresh_instant, TodoUsecase};

verus! {

/// The explicitly constructed, explicitly injected handle through which every
/// request reaches the use-case service: no implicit singleton.
pub struct AppState<R: TodoRepository> {
    pub todo_service: std::sync::Arc<TodoUsecase<R>>,
}

impl<R: TodoRepository> AppState<R> {
    /// Wrap a service for injection into the transport layer.
    pub fn new(todo_service: TodoUsecase<R>) -> (r: Self)
        ensures
            *r.todo_service == todo_service,
    {
        AppState { todo_service: std::sync::Arc::new(todo_service) }
    }
}

} // verus!
