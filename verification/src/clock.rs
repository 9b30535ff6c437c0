//! The wall clock.

use chrono::Utc;
use vstd::prelude::*;

verus! {

/// The current time, in seconds since the Unix epoch.
///
/// Trusted: calls `chrono`'s `Utc::now` and `DateTime::timestamp`. Nothing
/// is claimed of the result.
#[verifier::external_body]
pub(crate) fn unix_now() -> i64 {
    Utc::now().timestamp()
}

} // verus!
