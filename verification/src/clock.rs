//! Wall-clock access for timestamps on records and handler contexts.

use vstd::prelude::*;

verus! {

/// Relies on `chrono::Utc::now` for the current wall-clock time, converted
/// to milliseconds since the Unix epoch. The value depends on when the call
/// runs, so nothing is promised of it.
#[verifier::external_body]
pub fn now_unix_millis() -> i64 {
    chrono::Utc::now().timestamp_millis()
}

} // verus!
