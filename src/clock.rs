use vstd::prelude::*;

use crate::model::Timestamp;

verus! {

/// Relies on chrono::Utc::now and DateTime::timestamp_micros: the current
/// UTC wall-clock time in microseconds since the epoch. Nothing is promised
/// of the value, which depends on the machine's clock.
#[verifier::external_body]
pub(crate) fn now() -> (r: Timestamp) {
    Timestamp { micros: chrono::Utc::now().timestamp_micros() }
}

} // verus!
