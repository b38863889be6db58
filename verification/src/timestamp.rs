//! Timestamps as they arrive from outside.

use vstd::prelude::*;

verus! {

/// The time that the server assigned to a snapshot, in milliseconds since
/// the epoch.
#[derive(Clone, Copy, Debug, PartialEq, Eq, PartialOrd, Ord, Hash)]
pub struct ServerTimestamp(pub i64);

impl Default for ServerTimestamp {
    /// The epoch itself.
    fn default() -> (ts: ServerTimestamp)
        ensures
            ts.0 == 0,
    {
        ServerTimestamp(0)
    }
}

/// The timestamp that a record takes from a decoded field: the decoded
/// number if there is one and it is positive, and 0 ("unknown") otherwise.
pub open spec fn sanitized<E>(decoded: Result<i64, E>) -> int {
    match decoded {
        Ok(millis) => if millis > 0 {
            millis as int
        } else {
            0
        },
        Err(_) => 0,
    }
}

/// Sanitizes a timestamp of an inbound payload. `decoded` is what decoding
/// the field as a 64-bit integer gave. A field that is missing, garbled, out
/// of range or negative never fails the record: it becomes 0.
pub fn deserialize_timestamp<E>(decoded: Result<i64, E>) -> (millis: i64)
    ensures
        millis == sanitized(decoded),
{
    match decoded {
        Ok(millis) => if millis > 0 {
            millis
        } else {
            0
        },
        Err(_) => 0,
    }
}

} // verus!
