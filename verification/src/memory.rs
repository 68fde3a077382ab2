//! The transient backend: an in-memory mapping from identifier to record,
//! kept in insertion order, with every record well-formed and no identifier
//! stored twice.

use vstd::prelude::*;

use crate::error::RepoError;
use crate::repository::{
    id_present, lists_store, store_after_create, store_after_delete, store_after_update,
    TodoRepository,
};
use crate::todo::{clone_todo_list, Todo};
use vstd::rwlock::{RwLock, RwLockPredicate};

verus! {

/// No identifier occurs at two positions.
pub open spec fn distinct_ids(s: Seq<Todo>) -> bool {
    forall|i: int, j: int|
        0 <= i < j < s.len() ==> #[trigger] s[i].id != #[trigger] s[j].id
}

/// Every record is well-formed.
pub open spec fn all_wf(s: Seq<Todo>) -> bool {
    forall|i: int| 0 <= i < s.len() ==> (#[trigger] s[i]).wf()
}

/// Some position holds a record with this identifier.
pub open spec fn has_id(s: Seq<Todo>, id: u128) -> bool {
    exists|i: int| 0 <= i < s.len() && #[trigger] s[i].id == id
}

/// The position holding this identifier, where one exists.
pub open spec fn index_of_id(s: Seq<Todo>, id: u128) -> int {
    choose|i: int| 0 <= i < s.len() && #[trigger] s[i].id == id
}

/// The listing read as a map from identifier to record.
pub open spec fn as_map(s: Seq<Todo>) -> Map<u128, Todo> {
    Map::new(|id: u128| has_id(s, id), |id: u128| s[index_of_id(s, id)])
}

/// Under distinct identifiers, the map resolves each position's identifier to
/// exactly the record at that position.
proof fn lemma_map_at(s: Seq<Todo>, i: int)
    requires
        distinct_ids(s),
        0 <= i < s.len(),
    ensures
        as_map(s).contains_key(s[i].id),
        as_map(s)[s[i].id] == s[i],
{
    let id = s[i].id;
    assert(has_id(s, id));
    let j = index_of_id(s, id);
    assert(0 <= j < s.len() && s[j].id == id);
    if i != j {
        if i < j {
            assert(s[i].id != s[j].id);
        } else {
            assert(s[j].id != s[i].id);
        }
        assert(false);
    }
}

/// Under distinct identifiers, the chosen index of a position's identifier is
/// that position itself.
proof fn lemma_index_of_id_is(s: Seq<Todo>, i: int)
    requires
        distinct_ids(s),
        0 <= i < s.len(),
    ensures
        has_id(s, s[i].id),
        index_of_id(s, s[i].id) == i,
{
    let id = s[i].id;
    assert(has_id(s, id));
    let j = index_of_id(s, id);
    assert(0 <= j < s.len() && s[j].id == id);
    if i != j {
        if i < j {
            assert(s[i].id != s[j].id);
        } else {
            assert(s[j].id != s[i].id);
        }
        assert(false);
    }
}

/// A listing with distinct identifiers reflects its own map exactly.
proof fn lemma_lists_own_map(s: Seq<Todo>)
    requires
        distinct_ids(s),
    ensures
        lists_store(s, as_map(s)),
{
    assert forall|i: int| 0 <= i < s.len() implies as_map(s).contains_key(#[trigger] s[i].id)
        && as_map(s)[s[i].id] == s[i] by {
        lemma_map_at(s, i);
    }
    assert forall|id: u128| as_map(s).contains_key(id) implies exists|i: int|
        0 <= i < s.len() && #[trigger] s[i].id == id by {
        assert(has_id(s, id));
    }
}

/// Replacing the record at a position, identifier unchanged, is insertion
/// into the map.
proof fn lemma_map_replace(s: Seq<Todo>, i: int, todo: Todo)
    requires
        distinct_ids(s),
        all_wf(s),
        todo.wf(),
        0 <= i < s.len(),
        s[i].id == todo.id,
    ensures
        distinct_ids(s.update(i, todo)),
        all_wf(s.update(i, todo)),
        as_map(s.update(i, todo)) =~= as_map(s).insert(todo.id, todo),
{
    let s2 = s.update(i, todo);
    assert(forall|k: int| 0 <= k < s2.len() ==> #[trigger] s2[k].id == s[k].id);
    assert forall|a: int, b: int|
        0 <= a < b < s2.len() implies #[trigger] s2[a].id != #[trigger] s2[b].id by {
        assert(s[a].id != s[b].id);
    }
    assert forall|id: u128| has_id(s2, id) implies has_id(s, id) by {
        let k = choose|k: int| 0 <= k < s2.len() && #[trigger] s2[k].id == id;
        assert(s[k].id == id);
    }
    assert forall|id: u128| has_id(s, id) implies has_id(s2, id) by {
        let k = choose|k: int| 0 <= k < s.len() && #[trigger] s[k].id == id;
        assert(s2[k].id == id);
    }
    assert forall|id: u128| #[trigger] as_map(s2).contains_key(id) implies as_map(s2)[id]
        == as_map(s).insert(todo.id, todo)[id] by {
        if id == todo.id {
            lemma_map_at(s2, i);
        } else {
            let k = choose|k: int| 0 <= k < s.len() && #[trigger] s[k].id == id;
            assert(k != i);
            lemma_map_at(s, k);
            lemma_map_at(s2, k);
        }
    }
}

/// Appending a record with a fresh identifier is insertion into the map.
proof fn lemma_map_push(s: Seq<Todo>, todo: Todo)
    requires
        distinct_ids(s),
        all_wf(s),
        todo.wf(),
        !has_id(s, todo.id),
    ensures
        distinct_ids(s.push(todo)),
        all_wf(s.push(todo)),
        as_map(s.push(todo)) =~= as_map(s).insert(todo.id, todo),
{
    let s2 = s.push(todo);
    assert forall|a: int, b: int|
        0 <= a < b < s2.len() implies #[trigger] s2[a].id != #[trigger] s2[b].id by {
        if b == s.len() {
            if s[a].id == todo.id {
                assert(has_id(s, todo.id));
            }
        } else {
            assert(s[a].id != s[b].id);
        }
    }
    assert forall|id: u128| has_id(s2, id) implies as_map(s).insert(todo.id, todo).contains_key(
        id,
    ) by {
        let k = choose|k: int| 0 <= k < s2.len() && #[trigger] s2[k].id == id;
        if k < s.len() {
            assert(s[k].id == id);
        }
    }
    assert forall|id: u128| has_id(s, id) implies has_id(s2, id) by {
        let k = choose|k: int| 0 <= k < s.len() && #[trigger] s[k].id == id;
        assert(s2[k].id == id);
    }
    assert(s2[s.len() as int].id == todo.id);
    assert(has_id(s2, todo.id));
    assert forall|id: u128| #[trigger] as_map(s2).contains_key(id) implies as_map(s2)[id]
        == as_map(s).insert(todo.id, todo)[id] by {
        if id == todo.id {
            lemma_map_at(s2, s.len() as int);
        } else {
            let k = choose|k: int| 0 <= k < s2.len() && #[trigger] s2[k].id == id;
            assert(k < s.len());
            assert(s[k].id == id);
            lemma_map_at(s, k);
            lemma_map_at(s2, k);
        }
    }
}

/// Taking out the record at a position is removal of its identifier from the
/// map.
proof fn lemma_map_take_out(s: Seq<Todo>, i: int)
    requires
        distinct_ids(s),
        all_wf(s),
        0 <= i < s.len(),
    ensures
        distinct_ids(s.remove(i)),
        all_wf(s.remove(i)),
        as_map(s.remove(i)) =~= as_map(s).remove(s[i].id),
{
    let s2 = s.remove(i);
    assert forall|a: int, b: int|
        0 <= a < b < s2.len() implies #[trigger] s2[a].id != #[trigger] s2[b].id by {
        let a0: int = if a < i { a } else { a + 1 };
        let b0: int = if b < i { b } else { b + 1 };
        assert(s2[a] == s[a0]);
        assert(s2[b] == s[b0]);
        assert(s[a0].id != s[b0].id);
    }
    assert forall|k: int| 0 <= k < s2.len() implies (#[trigger] s2[k]).wf() by {
        let k0: int = if k < i { k } else { k + 1 };
        assert(s2[k] == s[k0]);
    }
    assert forall|id: u128| has_id(s2, id) implies has_id(s, id) && id != s[i].id by {
        let k = choose|k: int| 0 <= k < s2.len() && #[trigger] s2[k].id == id;
        let k0: int = if k < i { k } else { k + 1 };
        assert(s2[k] == s[k0]);
        assert(s[k0].id == id);
        if k0 < i {
            assert(s[k0].id != s[i].id);
        } else {
            assert(s[i].id != s[k0].id);
        }
    }
    assert forall|id: u128| has_id(s, id) && id != s[i].id implies has_id(s2, id) by {
        let k0 = choose|k: int| 0 <= k < s.len() && #[trigger] s[k].id == id;
        if k0 < i {
            assert(s2[k0].id == id);
        } else {
            assert(k0 != i);
            assert(s2[k0 - 1] == s[k0]);
            assert(s2[k0 - 1].id == id);
        }
    }
    assert forall|id: u128| #[trigger] as_map(s2).contains_key(id) implies as_map(s2)[id]
        == as_map(s).remove(s[i].id)[id] by {
        let k = choose|k: int| 0 <= k < s2.len() && #[trigger] s2[k].id == id;
        let k0: int = if k < i { k } else { k + 1 };
        assert(s2[k] == s[k0]);
        lemma_map_at(s2, k);
        lemma_map_at(s, k0);
    }
}

/// The in-memory backend: records in insertion order, identifiers unique,
/// every record well-formed. Results reflect the contents exactly, and no
/// operation can fail for a reason of the backend's own.
pub struct InMemoryTodoRepository {
    todos: Vec<Todo>,
}

impl InMemoryTodoRepository {
    /// Identifiers are never stored twice and no stored record breaks the
    /// timestamp invariant.
    #[verifier::type_invariant]
    spec fn inv(&self) -> bool {
        distinct_ids(self.todos@) && all_wf(self.todos@)
    }

    /// The records in insertion order: the order `find_all` hands them out.
    pub closed spec fn listing(&self) -> Seq<Todo> {
        self.todos@
    }

    /// An empty store, faithful to its contents and free of backend failures.
    pub fn new() -> (r: Self)
        ensures
            r.store() == Map::<u128, Todo>::empty(),
            r.listing() == Seq::<Todo>::empty(),
            r.faithful(),
            r.reliable(),
    {
        let r = InMemoryTodoRepository { todos: Vec::new() };
        proof {
            assert(r.store() =~= Map::<u128, Todo>::empty());
        }
        r
    }

    /// A borrow of the backing list, for reads under a lock.
    fn borrow_todos(&self) -> (r: &Vec<Todo>)
        ensures
            r@ == self.todos@,
    {
        &self.todos
    }

    /// The position holding `id`, or `None` when no record carries it.
    fn position_of(&self, id: u128) -> (r: Option<usize>)
        ensures
            match r {
                Some(i) => i < self.todos@.len() && self.todos@[i as int].id == id,
                None => !has_id(self.todos@, id),
            },
    {
        let n = self.todos.len();
        let mut i: usize = 0;
        while i < n
            invariant
                n == self.todos@.len(),
                i <= n,
                forall|k: int| 0 <= k < i ==> #[trigger] self.todos@[k].id != id,
            decreases n - i,
        {
            if self.todos[i].id == id {
                return Some(i);
            }
            i += 1;
        }
        None
    }
}

impl TodoRepository for InMemoryTodoRepository {
    closed spec fn store(&self) -> Map<u128, Todo> {
        as_map(self.todos@)
    }

    closed spec fn faithful(&self) -> bool {
        true
    }

    closed spec fn reliable(&self) -> bool {
        true
    }

    open spec fn find_all_post(pre: Self, post: Self, r: Result<Vec<Todo>, RepoError>) -> bool {
        &&& post == pre
        &&& r matches Ok(v) && v@ == pre.listing()
    }

    open spec fn find_by_id_post(
        pre: Self,
        post: Self,
        id: u128,
        r: Result<Option<Todo>, RepoError>,
    ) -> bool {
        &&& post == pre
        &&& r == Result::<Option<Todo>, RepoError>::Ok(
            if id_present(pre.store(), id) {
                Some(pre.store()[id])
            } else {
                None
            },
        )
    }

    open spec fn create_post(pre: Self, post: Self, todo: Todo, r: Result<Todo, RepoError>) -> bool {
        &&& r == Result::<Todo, RepoError>::Ok(todo)
        &&& post.store() == store_after_create(pre.store(), todo)
        &&& post.listing() == if has_id(pre.listing(), todo.id) {
            pre.listing().update(index_of_id(pre.listing(), todo.id), todo)
        } else {
            pre.listing().push(todo)
        }
    }

    open spec fn update_post(pre: Self, post: Self, todo: Todo, r: Result<Todo, RepoError>) -> bool {
        if id_present(pre.store(), todo.id) {
            &&& r == Result::<Todo, RepoError>::Ok(todo)
            &&& post.store() == store_after_update(pre.store(), todo)
            &&& post.listing() == pre.listing().update(
                index_of_id(pre.listing(), todo.id),
                todo,
            )
        } else {
            &&& r == Result::<Todo, RepoError>::Err(RepoError::NotFound)
            &&& post == pre
        }
    }

    open spec fn delete_post(pre: Self, post: Self, id: u128, r: Result<(), RepoError>) -> bool {
        if id_present(pre.store(), id) {
            &&& r == Result::<(), RepoError>::Ok(())
            &&& post.store() == store_after_delete(pre.store(), id)
            &&& post.listing() == pre.listing().remove(index_of_id(pre.listing(), id))
        } else {
            &&& r == Result::<(), RepoError>::Err(RepoError::NotFound)
            &&& post == pre
        }
    }

    fn find_all(&mut self) -> (r: Result<Vec<Todo>, RepoError>) {
        proof {
            use_type_invariant(&*self);
            lemma_lists_own_map(self.todos@);
        }
        Ok(clone_todo_list(&self.todos))
    }

    fn find_by_id(&mut self, id: u128) -> (r: Result<Option<Todo>, RepoError>) {
        proof {
            use_type_invariant(&*self);
        }
        match self.position_of(id) {
            Some(i) => {
                proof {
                    lemma_map_at(self.todos@, i as int);
                }
                Ok(Some(self.todos[i].clone()))
            },
            None => Ok(None),
        }
    }

    fn create(&mut self, todo: Todo) -> (r: Result<Todo, RepoError>) {
        proof {
            use_type_invariant(&*self);
        }
        let persisted = todo.clone();
        match self.position_of(todo.id) {
            Some(i) => {
                proof {
                    lemma_index_of_id_is(self.todos@, i as int);
                    lemma_map_at(self.todos@, i as int);
                    lemma_map_replace(self.todos@, i as int, todo);
                }
                let mut todos: Vec<Todo> = Vec::new();
                std::mem::swap(&mut todos, &mut self.todos);
                todos[i] = todo;
                self.todos = todos;
            },
            None => {
                proof {
                    lemma_map_push(self.todos@, todo);
                }
                let mut todos: Vec<Todo> = Vec::new();
                std::mem::swap(&mut todos, &mut self.todos);
                todos.push(todo);
                self.todos = todos;
            },
        }
        Ok(persisted)
    }

    fn update(&mut self, todo: Todo) -> (r: Result<Todo, RepoError>) {
        proof {
            use_type_invariant(&*self);
        }
        match self.position_of(todo.id) {
            Some(i) => {
                let persisted = todo.clone();
                proof {
                    lemma_index_of_id_is(self.todos@, i as int);
                    lemma_map_at(self.todos@, i as int);
                    lemma_map_replace(self.todos@, i as int, todo);
                }
                let mut todos: Vec<Todo> = Vec::new();
                std::mem::swap(&mut todos, &mut self.todos);
                todos[i] = todo;
                self.todos = todos;
                Ok(persisted)
            },
            None => Err(RepoError::NotFound),
        }
    }

    fn delete(&mut self, id: u128) -> (r: Result<(), RepoError>) {
        proof {
            use_type_invariant(&*self);
        }
        match self.position_of(id) {
            Some(i) => {
                proof {
                    lemma_index_of_id_is(self.todos@, i as int);
                    lemma_map_at(self.todos@, i as int);
                    lemma_map_take_out(self.todos@, i as int);
                }
                let mut todos: Vec<Todo> = Vec::new();
                std::mem::swap(&mut todos, &mut self.todos);
                let _ = todos.remove(i);
                self.todos = todos;
                Ok(())
            },
            None => Err(RepoError::NotFound),
        }
    }
}

/// What the reader/writer lock may hold: only a well-formed store, so every
/// reader sees identifiers unique and every record complete.
pub struct StorePred {}

impl RwLockPredicate<InMemoryTodoRepository> for StorePred {
    closed spec fn inv(self, v: InMemoryTodoRepository) -> bool {
        v.inv()
    }
}

/// The in-memory store behind a reader/writer lock, shared by reference
/// across concurrent callers: any number of reads proceed together, writes
/// are exclusive, and no write is ever observed half-applied. Callers receive
/// fully materialized copies, never a live view, so the lock is released
/// before a result is handed back.
pub struct SharedTodoStore {
    lock: RwLock<InMemoryTodoRepository, StorePred>,
}

impl SharedTodoStore {
    /// An empty shared store.
    pub fn new() -> (r: Self) {
        let repo = InMemoryTodoRepository::new();
        proof {
            use_type_invariant(&repo);
        }
        SharedTodoStore { lock: RwLock::new(repo, Ghost(StorePred {})) }
    }

    /// A snapshot of every stored record, in insertion order, taken under a
    /// single read lock: identifiers are unique and every record is
    /// well-formed, so no partially applied write is ever visible.
    pub fn find_all(&self) -> (r: Vec<Todo>)
        ensures
            distinct_ids(r@),
            all_wf(r@),
            lists_store(r@, as_map(r@)),
    {
        let handle = self.lock.acquire_read();
        let repo = handle.borrow();
        proof {
            use_type_invariant(repo);
            lemma_lists_own_map(repo.todos@);
        }
        let todos = clone_todo_list(repo.borrow_todos());
        handle.release_read();
        todos
    }

    /// The record stored under `id`, or `None` when the id does not resolve.
    pub fn find_by_id(&self, id: u128) -> (r: Option<Todo>)
        ensures
            r matches Some(t) ==> t.id == id && t.wf(),
    {
        let handle = self.lock.acquire_read();
        let repo = handle.borrow();
        proof {
            use_type_invariant(repo);
        }
        let found = match repo.position_of(id) {
            Some(i) => Some(repo.borrow_todos()[i].clone()),
            None => None,
        };
        handle.release_read();
        found
    }

    /// Store a record under its identifier, unconditionally, under an
    /// exclusive write lock.
    pub fn create(&self, todo: Todo) -> (r: Todo)
        requires
            todo.wf(),
        ensures
            r == todo,
    {
        let persisted = todo.clone();
        let (mut repo, handle) = self.lock.acquire_write();
        let created = match repo.create(todo) {
            Ok(t) => t,
            Err(_) => persisted,
        };
        proof {
            use_type_invariant(&repo);
        }
        handle.release_write(repo);
        created
    }

    /// Replace the record stored under `todo.id`, locating it and replacing
    /// it under one exclusive critical section; fail not-found, inserting
    /// nothing, when the id does not resolve.
    pub fn update(&self, todo: Todo) -> (r: Result<Todo, RepoError>)
        requires
            todo.wf(),
        ensures
            r matches Ok(t) ==> t == todo,
            r matches Err(e) ==> e == RepoError::NotFound,
    {
        let (mut repo, handle) = self.lock.acquire_write();
        let outcome = repo.update(todo);
        proof {
            use_type_invariant(&repo);
        }
        handle.release_write(repo);
        outcome
    }

    /// Remove the record stored under `id`; fail not-found when the id does
    /// not resolve, succeed otherwise.
    pub fn delete(&self, id: u128) -> (r: Result<(), RepoError>)
        ensures
            r matches Err(e) ==> e == RepoError::NotFound,
    {
        let (mut repo, handle) = self.lock.acquire_write();
        let outcome = repo.delete(id);
        proof {
            use_type_invariant(&repo);
        }
        handle.release_write(repo);
        outcome
    }
}

} // verus!
