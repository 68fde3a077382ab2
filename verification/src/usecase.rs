//! The use-case service: the only component business logic depends on. It
//! orchestrates repository calls, generates identity and timestamps at
//! creation, applies partial updates, and always refreshes `updated_at` —
//! against the abstract contract only, never a concrete store.

use vstd::prelude::*;

use crate::clock::now_nanos;
use crate::error::RepoError;
use crate::ids::{fresh_todo_id, id_version};
use crate::repository::{
    id_present, lists_store, store_after_create, store_after_delete, store_after_update,
    TodoRepository,
};
use crate::todo::Todo;

verus! {

/// The service's reading of a lookup result: a found record passes through,
/// absence becomes the not-found outcome, an error propagates unchanged.
pub open spec fn found_to_outcome(rr: Result<Option<Todo>, RepoError>) -> Result<
    Todo,
    RepoError,
> {
    match rr {
        Ok(found) => match found {
            Some(t) => Ok(t),
            None => Err(RepoError::NotFound),
        },
        Err(e) => Err(e),
    }
}

/// A freshly constructed record for this request: the given title and
/// description, not yet completed, both instants equal, a version-7
/// identifier.
pub open spec fn fresh_record(t: Todo, title: String, description: Option<String>) -> bool {
    &&& t.title == title
    &&& t.description == description
    &&& !t.completed
    &&& t.created_at == t.updated_at
    &&& id_version(t.id) == 7
    &&& t.wf()
}

/// The partial application of an update request to a prior record: each
/// supplied field replaces the prior value, each omitted field retains it,
/// the creation instant is never touched, and the record stays well-formed.
pub open spec fn applies_update(
    prev: Todo,
    id: u128,
    title: Option<String>,
    description: Option<String>,
    completed: Option<bool>,
    t: Todo,
) -> bool {
    &&& t.id == id
    &&& t.title == (if title is Some {
        title->0
    } else {
        prev.title
    })
    &&& t.description == (if description is Some {
        Some(description->0)
    } else {
        prev.description
    })
    &&& t.completed == (if completed is Some {
        completed->0
    } else {
        prev.completed
    })
    &&& t.created_at == prev.created_at
    &&& t.wf()
}

/// The refreshed modification instant: the current clock reading, clamped so
/// it never precedes the creation instant. If the clock has advanced past the
/// creation instant, the refreshed instant is strictly later than it.
pub fn refresh_instant(now: i64, created_at: i64) -> (r: i64)
    ensures
        r == (if now > created_at {
            now
        } else {
            created_at
        }),
        r >= created_at,
        now > created_at ==> r > created_at,
{
    if now > created_at {
        now
    } else {
        created_at
    }
}

/// The service, over whichever backend is injected.
pub struct TodoUsecase<R: TodoRepository> {
    pub repo: R,
}

impl<R: TodoRepository> TodoUsecase<R> {
    /// The injected backend's current contents.
    pub open spec fn store(&self) -> Map<u128, Todo> {
        self.repo.store()
    }

    /// Hand the service the backend it is to orchestrate.
    pub fn new(repo: R) -> (r: Self)
        ensures
            r.repo == repo,
    {
        TodoUsecase { repo }
    }

    /// Every stored record, unchanged, through exactly one repository call;
    /// errors propagate unchanged.
    pub fn get_all_todos(&mut self) -> (r: Result<Vec<Todo>, RepoError>)
        ensures
            final(self).store() == old(self).store(),
            final(self).repo.faithful() == old(self).repo.faithful(),
            final(self).repo.reliable() == old(self).repo.reliable(),
            R::find_all_post(old(self).repo, final(self).repo, r),
            old(self).repo.faithful() ==> (r matches Ok(v) ==> lists_store(
                v@,
                old(self).store(),
            )),
            old(self).repo.faithful() && old(self).repo.reliable() ==> r is Ok,
    {
        self.repo.find_all()
    }

    /// The record stored under `id`, through exactly one repository call;
    /// absence surfaces as not-found, distinct from a storage failure, and
    /// any other error propagates unchanged.
    pub fn get_todo(&mut self, id: u128) -> (r: Result<Todo, RepoError>)
        ensures
            final(self).store() == old(self).store(),
            final(self).repo.faithful() == old(self).repo.faithful(),
            final(self).repo.reliable() == old(self).repo.reliable(),
            exists|rr: Result<Option<Todo>, RepoError>|
                #[trigger] R::find_by_id_post(old(self).repo, final(self).repo, id, rr) && r
                    == found_to_outcome(rr),
            old(self).repo.faithful() ==> (r matches Ok(t) ==> id_present(old(self).store(), id)
                && old(self).store()[id] == t),
            old(self).repo.faithful() && old(self).repo.reliable() ==> (r is Ok <==> id_present(
                old(self).store(),
                id,
            )),
            old(self).repo.faithful() && old(self).repo.reliable() ==> (r == Result::<
                Todo,
                RepoError,
            >::Err(RepoError::NotFound) <==> !id_present(old(self).store(), id)),
    {
        let found = self.repo.find_by_id(id);
        let ghost rr = found;
        let outcome = match found {
            Ok(Some(t)) => Ok(t),
            Ok(None) => Err(RepoError::NotFound),
            Err(e) => Err(e),
        };
        proof {
            assert(R::find_by_id_post(old(self).repo, self.repo, id, rr) && outcome
                == found_to_outcome(rr));
        }
        outcome
    }

    /// Construct a fresh record — identifier and both timestamps generated
    /// here, not by the backend — persist it through exactly one repository
    /// call, and hand back what the backend answered.
    pub fn create_todo(&mut self, title: String, description: Option<String>) -> (r: Result<
        Todo,
        RepoError,
    >)
        ensures
            final(self).repo.faithful() == old(self).repo.faithful(),
            final(self).repo.reliable() == old(self).repo.reliable(),
            exists|t: Todo|
                #[trigger] R::create_post(old(self).repo, final(self).repo, t, r) && fresh_record(
                    t,
                    title,
                    description,
                ),
            old(self).repo.faithful() ==> (r matches Ok(t) ==> t.title == title && t.description
                == description && !t.completed && t.created_at == t.updated_at && id_version(t.id)
                == 7 && t.wf() && final(self).store() == store_after_create(old(self).store(), t)),
            old(self).repo.faithful() ==> (r is Err ==> final(self).store() == old(self).store()),
            old(self).repo.faithful() && old(self).repo.reliable() ==> r is Ok,
    {
        let ghost title_g = title;
        let ghost description_g = description;
        let id = fresh_todo_id();
        let now = now_nanos();
        let todo = Todo {
            id,
            title,
            description,
            completed: false,
            created_at: now,
            updated_at: now,
        };
        let ghost tg = todo;
        let outcome = self.repo.create(todo);
        proof {
            assert(R::create_post(old(self).repo, self.repo, tg, outcome) && fresh_record(
                tg,
                title_g,
                description_g,
            ));
        }
        outcome
    }

    /// Load the record stored under `id` — not-found when absent — apply only
    /// the fields supplied, refresh `updated_at`, persist the result through
    /// the repository's `update`, and hand back what it answered. An omitted
    /// field retains its prior value; `created_at` is never touched.
    pub fn update_todo(
        &mut self,
        id: u128,
        title: Option<String>,
        description: Option<String>,
        completed: Option<bool>,
    ) -> (r: Result<Todo, RepoError>)
        ensures
            final(self).repo.faithful() == old(self).repo.faithful(),
            final(self).repo.reliable() == old(self).repo.reliable(),
            exists|mid: R, rr: Result<Option<Todo>, RepoError>|
                #[trigger] R::find_by_id_post(old(self).repo, mid, id, rr) && (match rr {
                    Ok(found) => match found {
                        Some(prev) => exists|t: Todo|
                            #[trigger] R::update_post(mid, final(self).repo, t, r)
                                && applies_update(prev, id, title, description, completed, t),
                        None => final(self).repo == mid && r == Result::<Todo, RepoError>::Err(
                            RepoError::NotFound,
                        ),
                    },
                    Err(e) => final(self).repo == mid && r == Result::<Todo, RepoError>::Err(e),
                }),
            old(self).repo.faithful() ==> (r matches Ok(t) ==> id_present(old(self).store(), id)
                && ({
                let prev = old(self).store()[id];
                &&& applies_update(prev, id, title, description, completed, t)
                &&& final(self).store() == store_after_update(old(self).store(), t)
            })),
            old(self).repo.faithful() ==> (r is Err ==> final(self).store() == old(self).store()),
            old(self).repo.faithful() && old(self).repo.reliable() ==> (r is Ok <==> id_present(
                old(self).store(),
                id,
            )),
            old(self).repo.faithful() && old(self).repo.reliable() ==> (r == Result::<
                Todo,
                RepoError,
            >::Err(RepoError::NotFound) <==> !id_present(old(self).store(), id)),
    {
        let found = self.repo.find_by_id(id);
        let ghost mid = self.repo;
        let ghost rr = found;
        match found {
            Ok(Some(prev)) => {
                let ghost prev_g = prev;
                let ghost title_g = title;
                let ghost description_g = description;
                let now = now_nanos();
                let updated_at = refresh_instant(now, prev.created_at);
                let todo = Todo {
                    id,
                    title: match title {
                        Some(x) => x,
                        None => prev.title,
                    },
                    description: match description {
                        Some(d) => Some(d),
                        None => prev.description,
                    },
                    completed: match completed {
                        Some(c) => c,
                        None => prev.completed,
                    },
                    created_at: prev.created_at,
                    updated_at,
                };
                let ghost tg = todo;
                let outcome = self.repo.update(todo);
                proof {
                    assert(R::find_by_id_post(old(self).repo, mid, id, rr));
                    assert(applies_update(prev_g, id, title_g, description_g, completed, tg));
                    assert(R::update_post(mid, self.repo, tg, outcome));
                }
                outcome
            },
            Ok(None) => {
                proof {
                    assert(R::find_by_id_post(old(self).repo, mid, id, rr));
                }
                Err(RepoError::NotFound)
            },
            Err(e) => {
                proof {
                    assert(R::find_by_id_post(old(self).repo, mid, id, rr));
                }
                Err(e)
            },
        }
    }

    /// Remove the record stored under `id`, through exactly one repository
    /// call; not-found stays distinguishable from other failures, and once a
    /// removal succeeds the id no longer resolves.
    pub fn delete_todo(&mut self, id: u128) -> (r: Result<(), RepoError>)
        ensures
            final(self).repo.faithful() == old(self).repo.faithful(),
            final(self).repo.reliable() == old(self).repo.reliable(),
            R::delete_post(old(self).repo, final(self).repo, id, r),
            old(self).repo.faithful() ==> (r is Ok ==> id_present(old(self).store(), id)
                && final(self).store() == store_after_delete(old(self).store(), id)),
            old(self).repo.faithful() ==> (r is Err ==> final(self).store() == old(self).store()),
            old(self).repo.faithful() ==> (r == Result::<(), RepoError>::Err(RepoError::NotFound)
                ==> !id_present(old(self).store(), id)),
            old(self).repo.faithful() && old(self).repo.reliable() ==> (r is Ok <==> id_present(
                old(self).store(),
                id,
            )),
            old(self).repo.faithful() && old(self).repo.reliable() ==> (r == Result::<
                (),
                RepoError,
            >::Err(RepoError::NotFound) <==> !id_present(old(self).store(), id)),
    {
        self.repo.delete(id)
    }
}

} // verus!
