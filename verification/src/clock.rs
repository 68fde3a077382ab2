//! Reading the current instant as a plain timestamp.

use vstd::prelude::*;

verus! {

/// Relies on `std::time::SystemTime::now` and `duration_since(UNIX_EPOCH)`:
/// the current instant in nanoseconds since the Unix epoch. A system clock
/// set before the epoch reads as `0`, and an instant beyond the representable
/// range (past the year 2262) reads as `i64::MAX`, so no clock setting can
/// make the call panic. The result depends on the wall clock, so nothing more
/// is promised of its value.
#[verifier::external_body]
pub fn now_nanos() -> (r: i64)
    ensures
        r >= 0,
{
    match std::time::SystemTime::now().duration_since(std::time::UNIX_EPOCH) {
        Ok(d) => i64::try_from(d.as_nanos()).unwrap_or(i64::MAX),
        Err(_) => 0,
    }
}

} // verus!
