//! The storage contract: the abstract capability every backend satisfies,
//! stated over a mathematical map from identifier to record.

use vstd::prelude::*;

use crate::error::RepoError;
use crate::todo::Todo;

verus! {

/// The contents a creation leaves behind: the record stored under its id,
/// overwriting any record that id already held.
pub open spec fn store_after_create(store: Map<u128, Todo>, todo: Todo) -> Map<u128, Todo> {
    store.insert(todo.id, todo)
}

/// The contents an update leaves behind: the record replaced under its id.
pub open spec fn store_after_update(store: Map<u128, Todo>, todo: Todo) -> Map<u128, Todo> {
    store.insert(todo.id, todo)
}

/// The contents a deletion leaves behind: the id no longer resolvable.
pub open spec fn store_after_delete(store: Map<u128, Todo>, id: u128) -> Map<u128, Todo> {
    store.remove(id)
}

/// Whether an update or deletion aimed at `id` finds its record.
pub open spec fn id_present(store: Map<u128, Todo>, id: u128) -> bool {
    store.contains_key(id)
}

/// A listing reflects the contents exactly: every listed record is stored
/// under its id, every stored id is listed, and no id is listed twice.
pub open spec fn lists_store(s: Seq<Todo>, store: Map<u128, Todo>) -> bool {
    &&& forall|i: int|
        0 <= i < s.len() ==> store.contains_key(#[trigger] s[i].id) && store[s[i].id] == s[i]
    &&& forall|id: u128|
        store.contains_key(id) ==> exists|i: int| 0 <= i < s.len() && #[trigger] s[i].id == id
    &&& forall|i: int, j: int|
        0 <= i < j < s.len() ==> #[trigger] s[i].id != #[trigger] s[j].id
}

/// The abstract capability of a Todo store.
///
/// `store()` is the backend's current contents as a map from identifier to
/// record. `faithful()` says that results reflect those contents — true of
/// real storage, false of a programmable test double. `reliable()` says the
/// backend never fails for reasons of its own (connectivity, lock trouble) —
/// true of the in-memory store, never assumed of a durable one. Success is
/// owed exactly where both hold; what a successful result means is owed
/// wherever `faithful()` holds.
pub trait TodoRepository: Sized {
    /// The backend's current contents.
    spec fn store(&self) -> Map<u128, Todo>;

    /// Results reflect `store()` exactly.
    spec fn faithful(&self) -> bool;

    /// No failures beyond the not-found outcome.
    spec fn reliable(&self) -> bool;

    /// What one `find_all` call does to this backend and what it can answer.
    /// Each backend pins this exactly: the in-memory store hands out its
    /// listing, the test double hands out its programmed response and bumps
    /// its count. The use-case layer restates it, so a caller who knows the
    /// backend knows the service's behaviour through it.
    spec fn find_all_post(pre: Self, post: Self, r: Result<Vec<Todo>, RepoError>) -> bool;

    /// What one `find_by_id` call does and what it can answer.
    spec fn find_by_id_post(
        pre: Self,
        post: Self,
        id: u128,
        r: Result<Option<Todo>, RepoError>,
    ) -> bool;

    /// What one `create` call does and what it can answer.
    spec fn create_post(pre: Self, post: Self, todo: Todo, r: Result<Todo, RepoError>) -> bool;

    /// What one `update` call does and what it can answer.
    spec fn update_post(pre: Self, post: Self, todo: Todo, r: Result<Todo, RepoError>) -> bool;

    /// What one `delete` call does and what it can answer.
    spec fn delete_post(pre: Self, post: Self, id: u128, r: Result<(), RepoError>) -> bool;

    /// Every stored record: order is storage-defined.
    fn find_all(&mut self) -> (r: Result<Vec<Todo>, RepoError>)
        ensures
            final(self).store() == old(self).store(),
            final(self).faithful() == old(self).faithful(),
            final(self).reliable() == old(self).reliable(),
            Self::find_all_post(*old(self), *final(self), r),
            old(self).faithful() ==> (r matches Ok(v) ==> lists_store(v@, old(self).store())),
            old(self).faithful() && old(self).reliable() ==> r is Ok,
    ;

    /// The record stored under `id`, or `None` if the id does not resolve;
    /// absence is not an error.
    fn find_by_id(&mut self, id: u128) -> (r: Result<Option<Todo>, RepoError>)
        ensures
            final(self).store() == old(self).store(),
            final(self).faithful() == old(self).faithful(),
            final(self).reliable() == old(self).reliable(),
            Self::find_by_id_post(*old(self), *final(self), id, r),
            old(self).faithful() ==> (r matches Ok(found) ==> match found {
                Some(t) => id_present(old(self).store(), id) && old(self).store()[id] == t,
                None => !id_present(old(self).store(), id),
            }),
            old(self).faithful() && old(self).reliable() ==> r is Ok,
    ;

    /// Persist a fully populated record under its id, unconditionally, and
    /// hand the persisted value back.
    fn create(&mut self, todo: Todo) -> (r: Result<Todo, RepoError>)
        requires
            todo.wf(),
        ensures
            final(self).faithful() == old(self).faithful(),
            final(self).reliable() == old(self).reliable(),
            Self::create_post(*old(self), *final(self), todo, r),
            old(self).faithful() ==> (r matches Ok(t) ==> t == todo && final(self).store()
                == store_after_create(old(self).store(), todo)),
            old(self).faithful() ==> (r is Err ==> final(self).store() == old(self).store()),
            old(self).faithful() && old(self).reliable() ==> r is Ok,
    ;

    /// Replace the record stored under `todo.id`; fail not-found, inserting
    /// nothing, if that id does not resolve.
    fn update(&mut self, todo: Todo) -> (r: Result<Todo, RepoError>)
        requires
            todo.wf(),
        ensures
            final(self).faithful() == old(self).faithful(),
            final(self).reliable() == old(self).reliable(),
            Self::update_post(*old(self), *final(self), todo, r),
            old(self).faithful() ==> (r matches Ok(t) ==> id_present(old(self).store(), todo.id)
                && t == todo && final(self).store() == store_after_update(
                old(self).store(),
                todo,
            )),
            old(self).faithful() ==> (r is Err ==> final(self).store() == old(self).store()),
            old(self).faithful() ==> (r == Result::<Todo, RepoError>::Err(RepoError::NotFound)
                ==> !id_present(old(self).store(), todo.id)),
            old(self).faithful() && old(self).reliable() ==> (r is Ok <==> id_present(
                old(self).store(),
                todo.id,
            )),
            old(self).faithful() && old(self).reliable() ==> (r == Result::<
                Todo,
                RepoError,
            >::Err(RepoError::NotFound) <==> !id_present(old(self).store(), todo.id)),
    ;

    /// Remove the record stored under `id`; fail not-found if that id does
    /// not resolve.
    fn delete(&mut self, id: u128) -> (r: Result<(), RepoError>)
        ensures
            final(self).faithful() == old(self).faithful(),
            final(self).reliable() == old(self).reliable(),
            Self::delete_post(*old(self), *final(self), id, r),
            old(self).faithful() ==> (r is Ok ==> id_present(old(self).store(), id)
                && final(self).store() == store_after_delete(old(self).store(), id)),
            old(self).faithful() ==> (r is Err ==> final(self).store() == old(self).store()),
            old(self).faithful() ==> (r == Result::<(), RepoError>::Err(RepoError::NotFound)
                ==> !id_present(old(self).store(), id)),
            old(self).faithful() && old(self).reliable() ==> (r is Ok <==> id_present(
                old(self).store(),
                id,
            )),
            old(self).faithful() && old(self).reliable() ==> (r == Result::<
                (),
                RepoError,
            >::Err(RepoError::NotFound) <==> !id_present(old(self).store(), id)),
    ;
}

/// A deleted id no longer resolves: once a deletion succeeds, a lookup of the
/// same id in the contents it leaves behind finds nothing.
pub proof fn lemma_deleted_id_absent(store: Map<u128, Todo>, id: u128)
    ensures
        !id_present(store_after_delete(store, id), id),
{
}

/// Deleting twice in sequence cannot succeed twice: once a deletion succeeds,
/// a second deletion aimed at the same id meets the not-found outcome.
pub proof fn lemma_second_delete_finds_nothing(store: Map<u128, Todo>, id: u128)
    ensures
        id_present(store, id) ==> !id_present(store_after_delete(store, id), id),
{
}

} // verus!
