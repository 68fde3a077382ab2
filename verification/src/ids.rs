//! Generation of fresh, time-ordered identifiers.

use vstd::prelude::*;

verus! {

/// The version nibble of a 128-bit identifier, as laid out by RFC 9562:
/// the high four bits of the seventh byte of the big-endian encoding.
pub open spec fn id_version(id: u128) -> u128 {
    (id >> 76) & 0xf
}

/// Relies on `uuid::Uuid::new_v7`, `uuid::Timestamp::from_unix` and
/// `uuid::Uuid::as_u128`: a freshly drawn version-7 UUID, time-ordered at
/// millisecond granularity, read as its big-endian 128-bit value. The clock is
/// read through `std::time::SystemTime` with a pre-epoch setting clamped to
/// the epoch, so no clock setting can make the call panic. The draw depends on
/// the clock and on randomness, so nothing is promised beyond the version
/// nibble that every v7 UUID carries.
#[verifier::external_body]
pub fn fresh_todo_id() -> (r: u128)
    ensures
        id_version(r) == 7,
{
    let (seconds, subsec_nanos) = match std::time::SystemTime::now().duration_since(
        std::time::UNIX_EPOCH,
    ) {
        Ok(d) => (d.as_secs(), d.subsec_nanos()),
        Err(_) => (0, 0),
    };
    uuid::Uuid::new_v7(uuid::Timestamp::from_unix(uuid::NoContext, seconds, subsec_nanos))
        .as_u128()
}

} // verus!
