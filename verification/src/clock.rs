//! The wall clock.

use vstd::prelude::*;

verus! {

/// Reads the current time with `chrono::Local::now` and returns it through
/// `DateTime::timestamp_millis`, as milliseconds since the Unix epoch.
///
/// Nothing is claimed of the value: the clock may stand anywhere, and it may
/// be set back between two readings. Where the system clock stands before
/// 1970, `chrono` stops the program.
#[verifier::external_body]
pub(crate) fn now_millis() -> i64 {
    chrono::Local::now().timestamp_millis()
}

} // verus!
