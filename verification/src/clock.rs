//! The wall clock, as the only thing here that is read from outside.

use vstd::prelude::*;

verus! {

/// Reads the current time in seconds since the Unix epoch.
///
/// Calls chrono's `Utc::now` and takes the `timestamp` of what it returns.
/// Nothing is claimed of the result: it is whatever the system clock says,
/// and two calls may differ in either direction. chrono stops the program
/// when the system clock stands before 1970.
#[verifier::external_body]
pub(crate) fn unix_now() -> (now: i64) {
    chrono::Utc::now().timestamp()
}

} // verus!
