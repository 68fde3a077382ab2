//! The error taxonomy shared by every storage backend and the use-case layer.

use vstd::prelude::*;

verus! {

/// Outcome of a failed repository or use-case operation.
///
/// `NotFound` is the expected, recoverable outcome of targeting an identifier
/// with no matching record; every layer keeps it distinguishable from
/// `Storage`, the opaque backend failure (connectivity, query, or lock
/// trouble) that is propagated unchanged to the boundary.
#[derive(Clone, Copy, Debug, PartialEq, Eq, Structural)]
pub enum RepoError {
    NotFound,
    Storage,
}

impl RepoError {
    /// A short human-readable description, suitable for a response body.
    pub fn describe(&self) -> (r: &'static str)
        ensures
            *self == RepoError::NotFound ==> r@ == "resource not found"@,
            *self == RepoError::Storage ==> r@ == "storage failure"@,
    {
        match self {
            RepoError::NotFound => "resource not found",
            RepoError::Storage => "storage failure",
        }
    }
}

} // verus!
