//! The `Todo` entity: the sole record the service tracks.

use vstd::prelude::*;

use crate::clock::now_nanos;
use crate::ids::{fresh_todo_id, id_version};

verus! {

/// A task record.
///
/// `id` is assigned once, at construction, and never reassigned. Both
/// timestamps are nanoseconds since the Unix epoch; at creation they are set
/// to the same instant, and `updated_at` is refreshed on every mutation while
/// `created_at` stays immutable, so `created_at <= updated_at` always holds.
#[derive(Debug, PartialEq)]
pub struct Todo {
    pub id: u128,
    pub title: String,
    pub description: Option<String>,
    pub completed: bool,
    pub created_at: i64,
    pub updated_at: i64,
}

impl Todo {
    /// Well-formedness: a record never carries an update instant that
    /// precedes its creation instant.
    pub open spec fn wf(&self) -> bool {
        self.created_at <= self.updated_at
    }

    /// Construct a fresh record: a newly generated time-ordered identifier,
    /// both timestamps set to the same current instant, and not yet completed.
    pub fn new(title: String, description: String) -> (r: Todo)
        ensures
            r.title == title,
            r.description == Some(description),
            !r.completed,
            r.created_at == r.updated_at,
            id_version(r.id) == 7,
            r.wf(),
    {
        let id = fresh_todo_id();
        let now = now_nanos();
        Todo {
            id,
            title,
            description: Some(description),
            completed: false,
            created_at: now,
            updated_at: now,
        }
    }

    /// Reassemble a record from its stored fields, as a durable backend hands
    /// them back row by row. Yields `None` exactly when the fields would break
    /// the timestamp invariant.
    pub fn from_parts(
        id: u128,
        title: String,
        description: Option<String>,
        completed: bool,
        created_at: i64,
        updated_at: i64,
    ) -> (r: Option<Todo>)
        ensures
            created_at <= updated_at <==> (r matches Some(t) && t == (Todo {
                id,
                title,
                description,
                completed,
                created_at,
                updated_at,
            })),
            created_at > updated_at <==> r is None,
    {
        if created_at <= updated_at {
            Some(Todo { id, title, description, completed, created_at, updated_at })
        } else {
            None
        }
    }
}

impl Clone for Todo {
    /// An owned copy equal to the original in every field.
    fn clone(&self) -> (r: Todo)
        ensures
            r == *self,
    {
        let description = match &self.description {
            Some(d) => Some(d.clone()),
            None => None,
        };
        Todo {
            id: self.id,
            title: self.title.clone(),
            description,
            completed: self.completed,
            created_at: self.created_at,
            updated_at: self.updated_at,
        }
    }
}

/// An owned, fully materialized copy of a list of records, equal element by
/// element to the original.
pub fn clone_todo_list(v: &Vec<Todo>) -> (r: Vec<Todo>)
    ensures
        r@ == v@,
{
    let mut r: Vec<Todo> = Vec::new();
    let n = v.len();
    let mut i: usize = 0;
    while i < n
        invariant
            n == v@.len(),
            i <= n,
            r@ =~= v@.subrange(0, i as int),
        decreases n - i,
    {
        r.push(v[i].clone());
        i += 1;
    }
    proof {
        assert(v@.subrange(0, n as int) =~= v@);
    }
    r
}

/// The shape a record takes at the service boundary: every entity field,
/// with the timestamps left as plain instants for the transport to format.
#[derive(Debug)]
pub struct TodoResponse {
    pub id: u128,
    pub title: String,
    pub description: Option<String>,
    pub completed: bool,
    pub created_at: i64,
    pub updated_at: i64,
}

impl From<Todo> for TodoResponse {
    /// Carry every field of the record over unchanged.
    fn from(todo: Todo) -> (r: TodoResponse) {
        TodoResponse {
            id: todo.id,
            title: todo.title,
            description: todo.description,
            completed: todo.completed,
            created_at: todo.created_at,
            updated_at: todo.updated_at,
        }
    }
}

impl vstd::std_specs::convert::FromSpecImpl<Todo> for TodoResponse {
    open spec fn obeys_from_spec() -> bool {
        true
    }

    open spec fn from_spec(todo: Todo) -> TodoResponse {
        TodoResponse {
            id: todo.id,
            title: todo.title,
            description: todo.description,
            completed: todo.completed,
            created_at: todo.created_at,
            updated_at: todo.updated_at,
        }
    }
}

} // verus!
