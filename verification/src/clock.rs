//! The one clock read the shell needs.

use vstd::prelude::*;

verus! {

/// Relies on `chrono::Utc::now` and `DateTime::timestamp_millis`: the
/// current UTC time as milliseconds since the Unix epoch. `Utc::now`
/// panics when the system clock is before the epoch, and otherwise
/// returns a time at or after it, so a result that comes back is
/// non-negative. Nothing more can be promised of a clock read.
#[verifier::external_body]
pub(crate) fn now_millis() -> (r: i64)
    ensures
        r >= 0,
{
    chrono::Utc::now().timestamp_millis()
}

} // verus!
