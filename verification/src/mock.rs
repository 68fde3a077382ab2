//! A programmable test double for the repository contract: per-operation
//! expectations with an invocation count and a canned response, and explicit
//! verification of the counts.

use vstd::prelude::*;

use crate::error::RepoError;
use crate::repository::TodoRepository;
use crate::todo::{clone_todo_list, Todo};

verus! {

/// One operation's programmed behaviour: the response each invocation yields,
/// how many invocations the test expects, and how many have happened.
pub struct Expectation<T> {
    pub response: Option<T>,
    pub expected: u64,
    pub calls: u64,
}

impl<T> Expectation<T> {
    /// The expectation is met: the operation was invoked exactly as many
    /// times as programmed.
    pub open spec fn met(&self) -> bool {
        self.calls == self.expected
    }

    /// No response programmed, no invocations expected, none recorded.
    fn fresh() -> (r: Expectation<T>)
        ensures
            r.response is None,
            r.expected == 0,
            r.calls == 0,
    {
        Expectation { response: None, expected: 0, calls: 0 }
    }

    /// Program `times` invocations, each answered with `response`, and reset
    /// the recorded count.
    fn program(&mut self, times: u64, response: T)
        ensures
            final(self).response == Some(response),
            final(self).expected == times,
            final(self).calls == 0,
    {
        self.response = Some(response);
        self.expected = times;
        self.calls = 0;
    }

    /// Record one invocation; the count saturates rather than wraps.
    fn record_call(&mut self)
        ensures
            final(self).response == old(self).response,
            final(self).expected == old(self).expected,
            old(self).calls < u64::MAX ==> final(self).calls == old(self).calls + 1,
            old(self).calls == u64::MAX ==> final(self).calls == u64::MAX,
    {
        if self.calls < u64::MAX {
            self.calls = self.calls + 1;
        }
    }

    /// Whether the invocation count matches the programmed expectation.
    fn check(&self) -> (r: bool)
        ensures
            r == self.met(),
    {
        self.calls == self.expected
    }
}

/// Two listing results answer alike: both succeed with the same records, or
/// both fail with the same error.
pub open spec fn same_listing(
    a: Result<Vec<Todo>, RepoError>,
    b: Result<Vec<Todo>, RepoError>,
) -> bool {
    match (a, b) {
        (Ok(x), Ok(y)) => x@ == y@,
        (Err(x), Err(y)) => x == y,
        _ => false,
    }
}

/// An invocation count after one more call: saturating rather than wrapping.
pub open spec fn bumped(calls: u64) -> u64 {
    if calls < u64::MAX {
        (calls + 1) as u64
    } else {
        u64::MAX
    }
}

/// One expectation after one recorded invocation: response and expected count
/// untouched, the call count bumped.
pub open spec fn recorded<T>(pre: Expectation<T>, post: Expectation<T>) -> bool {
    &&& post.response == pre.response
    &&& post.expected == pre.expected
    &&& post.calls == bumped(pre.calls)
}

/// A repository whose five operations answer from programmed expectations
/// instead of any store: the seam that lets the use-case service be exercised
/// without network or disk. An operation with no programmed response reports
/// a storage failure. `create` and `update`, when programmed to succeed, echo
/// the record they were handed, as a store that persists faithfully would.
///
/// Its answers are whatever a test programs, so `faithful()` and `reliable()`
/// are false and nothing relates them to a store's contents; what each call
/// returns and records is stated exactly below instead.
pub struct MockTodoRepository {
    pub find_all_exp: Expectation<Result<Vec<Todo>, RepoError>>,
    pub find_by_id_exp: Expectation<Result<Option<Todo>, RepoError>>,
    pub create_exp: Expectation<Result<(), RepoError>>,
    pub update_exp: Expectation<Result<(), RepoError>>,
    pub delete_exp: Expectation<Result<(), RepoError>>,
}

impl MockTodoRepository {
    /// A double with nothing programmed: every expectation is fresh, so
    /// verification succeeds until an operation is programmed or invoked.
    pub fn new() -> (r: Self)
        ensures
            r.find_all_exp.response is None && r.find_all_exp.expected == 0
                && r.find_all_exp.calls == 0,
            r.find_by_id_exp.response is None && r.find_by_id_exp.expected == 0
                && r.find_by_id_exp.calls == 0,
            r.create_exp.response is None && r.create_exp.expected == 0
                && r.create_exp.calls == 0,
            r.update_exp.response is None && r.update_exp.expected == 0
                && r.update_exp.calls == 0,
            r.delete_exp.response is None && r.delete_exp.expected == 0
                && r.delete_exp.calls == 0,
    {
        MockTodoRepository {
            find_all_exp: Expectation::fresh(),
            find_by_id_exp: Expectation::fresh(),
            create_exp: Expectation::fresh(),
            update_exp: Expectation::fresh(),
            delete_exp: Expectation::fresh(),
        }
    }

    /// Expect `find_all` to be invoked `times` times, answering `response`.
    pub fn expect_find_all(&mut self, times: u64, response: Result<Vec<Todo>, RepoError>)
        ensures
            final(self).find_all_exp.response == Some(response),
            final(self).find_all_exp.expected == times,
            final(self).find_all_exp.calls == 0,
            final(self).find_by_id_exp == old(self).find_by_id_exp,
            final(self).create_exp == old(self).create_exp,
            final(self).update_exp == old(self).update_exp,
            final(self).delete_exp == old(self).delete_exp,
    {
        self.find_all_exp.program(times, response);
    }

    /// Expect `find_by_id` to be invoked `times` times, answering `response`.
    pub fn expect_find_by_id(&mut self, times: u64, response: Result<Option<Todo>, RepoError>)
        ensures
            final(self).find_by_id_exp.response == Some(response),
            final(self).find_by_id_exp.expected == times,
            final(self).find_by_id_exp.calls == 0,
            final(self).find_all_exp == old(self).find_all_exp,
            final(self).create_exp == old(self).create_exp,
            final(self).update_exp == old(self).update_exp,
            final(self).delete_exp == old(self).delete_exp,
    {
        self.find_by_id_exp.program(times, response);
    }

    /// Expect `create` to be invoked `times` times; `Ok(())` makes each
    /// invocation echo its argument, an error makes it fail with that error.
    pub fn expect_create(&mut self, times: u64, response: Result<(), RepoError>)
        ensures
            final(self).create_exp.response == Some(response),
            final(self).create_exp.expected == times,
            final(self).create_exp.calls == 0,
            final(self).find_all_exp == old(self).find_all_exp,
            final(self).find_by_id_exp == old(self).find_by_id_exp,
            final(self).update_exp == old(self).update_exp,
            final(self).delete_exp == old(self).delete_exp,
    {
        self.create_exp.program(times, response);
    }

    /// Expect `update` to be invoked `times` times; `Ok(())` makes each
    /// invocation echo its argument, an error makes it fail with that error.
    pub fn expect_update(&mut self, times: u64, response: Result<(), RepoError>)
        ensures
            final(self).update_exp.response == Some(response),
            final(self).update_exp.expected == times,
            final(self).update_exp.calls == 0,
            final(self).find_all_exp == old(self).find_all_exp,
            final(self).find_by_id_exp == old(self).find_by_id_exp,
            final(self).create_exp == old(self).create_exp,
            final(self).delete_exp == old(self).delete_exp,
    {
        self.update_exp.program(times, response);
    }

    /// Expect `delete` to be invoked `times` times, answering `response`.
    pub fn expect_delete(&mut self, times: u64, response: Result<(), RepoError>)
        ensures
            final(self).delete_exp.response == Some(response),
            final(self).delete_exp.expected == times,
            final(self).delete_exp.calls == 0,
            final(self).find_all_exp == old(self).find_all_exp,
            final(self).find_by_id_exp == old(self).find_by_id_exp,
            final(self).create_exp == old(self).create_exp,
            final(self).update_exp == old(self).update_exp,
    {
        self.delete_exp.program(times, response);
    }

    /// Whether every expectation is met: each operation was invoked exactly
    /// as many times as programmed. A test fails when this is false.
    pub fn verify(&self) -> (r: bool)
        ensures
            r == (self.find_all_exp.met() && self.find_by_id_exp.met() && self.create_exp.met()
                && self.update_exp.met() && self.delete_exp.met()),
    {
        self.find_all_exp.check() && self.find_by_id_exp.check() && self.create_exp.check()
            && self.update_exp.check() && self.delete_exp.check()
    }
}

impl TodoRepository for MockTodoRepository {
    closed spec fn store(&self) -> Map<u128, Todo> {
        Map::empty()
    }

    closed spec fn faithful(&self) -> bool {
        false
    }

    closed spec fn reliable(&self) -> bool {
        false
    }

    open spec fn find_all_post(pre: Self, post: Self, r: Result<Vec<Todo>, RepoError>) -> bool {
        &&& recorded(pre.find_all_exp, post.find_all_exp)
        &&& post.find_by_id_exp == pre.find_by_id_exp
        &&& post.create_exp == pre.create_exp
        &&& post.update_exp == pre.update_exp
        &&& post.delete_exp == pre.delete_exp
        &&& match pre.find_all_exp.response {
            Some(resp) => same_listing(r, resp),
            None => r == Result::<Vec<Todo>, RepoError>::Err(RepoError::Storage),
        }
    }

    open spec fn find_by_id_post(
        pre: Self,
        post: Self,
        id: u128,
        r: Result<Option<Todo>, RepoError>,
    ) -> bool {
        &&& recorded(pre.find_by_id_exp, post.find_by_id_exp)
        &&& post.find_all_exp == pre.find_all_exp
        &&& post.create_exp == pre.create_exp
        &&& post.update_exp == pre.update_exp
        &&& post.delete_exp == pre.delete_exp
        &&& match pre.find_by_id_exp.response {
            Some(resp) => r == resp,
            None => r == Result::<Option<Todo>, RepoError>::Err(RepoError::Storage),
        }
    }

    open spec fn create_post(pre: Self, post: Self, todo: Todo, r: Result<Todo, RepoError>) -> bool {
        &&& recorded(pre.create_exp, post.create_exp)
        &&& post.find_all_exp == pre.find_all_exp
        &&& post.find_by_id_exp == pre.find_by_id_exp
        &&& post.update_exp == pre.update_exp
        &&& post.delete_exp == pre.delete_exp
        &&& match pre.create_exp.response {
            Some(resp) => match resp {
                Ok(()) => r == Result::<Todo, RepoError>::Ok(todo),
                Err(e) => r == Result::<Todo, RepoError>::Err(e),
            },
            None => r == Result::<Todo, RepoError>::Err(RepoError::Storage),
        }
    }

    open spec fn update_post(pre: Self, post: Self, todo: Todo, r: Result<Todo, RepoError>) -> bool {
        &&& recorded(pre.update_exp, post.update_exp)
        &&& post.find_all_exp == pre.find_all_exp
        &&& post.find_by_id_exp == pre.find_by_id_exp
        &&& post.create_exp == pre.create_exp
        &&& post.delete_exp == pre.delete_exp
        &&& match pre.update_exp.response {
            Some(resp) => match resp {
                Ok(()) => r == Result::<Todo, RepoError>::Ok(todo),
                Err(e) => r == Result::<Todo, RepoError>::Err(e),
            },
            None => r == Result::<Todo, RepoError>::Err(RepoError::Storage),
        }
    }

    open spec fn delete_post(pre: Self, post: Self, id: u128, r: Result<(), RepoError>) -> bool {
        &&& recorded(pre.delete_exp, post.delete_exp)
        &&& post.find_all_exp == pre.find_all_exp
        &&& post.find_by_id_exp == pre.find_by_id_exp
        &&& post.create_exp == pre.create_exp
        &&& post.update_exp == pre.update_exp
        &&& match pre.delete_exp.response {
            Some(resp) => r == resp,
            None => r == Result::<(), RepoError>::Err(RepoError::Storage),
        }
    }

    fn find_all(&mut self) -> (r: Result<Vec<Todo>, RepoError>) {
        self.find_all_exp.record_call();
        match &self.find_all_exp.response {
            Some(Ok(v)) => Ok(clone_todo_list(v)),
            Some(Err(e)) => Err(*e),
            None => Err(RepoError::Storage),
        }
    }

    fn find_by_id(&mut self, id: u128) -> (r: Result<Option<Todo>, RepoError>) {
        self.find_by_id_exp.record_call();
        match &self.find_by_id_exp.response {
            Some(Ok(Some(t))) => Ok(Some(t.clone())),
            Some(Ok(None)) => Ok(None),
            Some(Err(e)) => Err(*e),
            None => Err(RepoError::Storage),
        }
    }

    fn create(&mut self, todo: Todo) -> (r: Result<Todo, RepoError>) {
        self.create_exp.record_call();
        match &self.create_exp.response {
            Some(Ok(())) => Ok(todo),
            Some(Err(e)) => Err(*e),
            None => Err(RepoError::Storage),
        }
    }

    fn update(&mut self, todo: Todo) -> (r: Result<Todo, RepoError>) {
        self.update_exp.record_call();
        match &self.update_exp.response {
            Some(Ok(())) => Ok(todo),
            Some(Err(e)) => Err(*e),
            None => Err(RepoError::Storage),
        }
    }

    fn delete(&mut self, id: u128) -> (r: Result<(), RepoError>) {
        self.delete_exp.record_call();
        match &self.delete_exp.response {
            Some(resp) => *resp,
            None => Err(RepoError::Storage),
        }
    }
}

} // verus!
