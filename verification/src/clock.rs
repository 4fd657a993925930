//! The time of day, which the local record stamps its entries with.

use vstd::prelude::*;

verus! {

/// Trusted: `chrono::Utc::now` and `DateTime::timestamp`, the seconds since the epoch by
/// the machine's clock. Nothing is promised of the number: two calls may differ.
#[verifier::external_body]
pub(crate) fn unix_timestamp() -> (r: i64) {
    chrono::Utc::now().timestamp()
}

} // verus!
