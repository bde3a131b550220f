//! The wall clock.

use vstd::prelude::*;

verus! {

/// Seconds since the Unix epoch, read from the system clock through
/// `chrono::Utc::now()` and `DateTime::timestamp()`.
///
/// Nothing is promised of the value: two reads may return anything, in any
/// order. Callers that need to reason about time take it as an argument.
/// `Utc::now()` aborts the program if the system clock is set before 1970.
#[verifier::external_body]
pub(crate) fn unix_now() -> i64 {
    chrono::Utc::now().timestamp()
}

} // verus!
