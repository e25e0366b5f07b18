//! Bindings to the outside world that the ledger flows depend on: fresh
//! record identities and the current time. Both results depend on more than
//! the arguments, so nothing is assumed about the values that come back; the
//! verified callers state what holds whatever the outcome.

use vstd::prelude::*;

verus! {

/// A fresh random identity for a transaction record.
///
/// Relies on `uuid::Uuid::new_v4` (and `Uuid::as_u128` to read the value):
/// a randomly generated identifier. Nothing is assumed of the value; callers
/// that need uniqueness check it against the store and fail like any other
/// constraint violation.
#[verifier::external_body]
pub(crate) fn fresh_record_id() -> u128 {
    uuid::Uuid::new_v4().as_u128()
}

/// Milliseconds since the Unix epoch.
///
/// Relies on `chrono::Utc::now` and `DateTime::timestamp_millis`. The value
/// depends on the clock, so nothing is assumed of it.
#[verifier::external_body]
pub(crate) fn now_millis() -> u64 {
    chrono::Utc::now().timestamp_millis() as u64
}

} // verus!
