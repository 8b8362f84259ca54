//! Fresh identifiers and the current time.
//!
//! Both depend on the outside world (a random generator and the clock), so
//! nothing is promised of the values; the functions that use them take them
//! as arguments and are verified for every value.
use vstd::prelude::*;
use crate::domain::Timestamp;

verus! {

/// A random (version 4) UUID, as its 128-bit value (`uuid::Uuid::new_v4`).
/// Nothing is stated of the value: it is random.
#[verifier::external_body]
pub(crate) fn new_id() -> (r: u128) {
    uuid::Uuid::new_v4().as_u128()
}

/// The current time (`chrono::Utc::now()`, as `timestamp` and
/// `timestamp_subsec_nanos`). Nothing is stated of the value: it is the time.
#[verifier::external_body]
pub(crate) fn now() -> (r: Timestamp) {
    let t = chrono::Utc::now();
    Timestamp { secs: t.timestamp(), nanos: t.timestamp_subsec_nanos() }
}

} // verus!
