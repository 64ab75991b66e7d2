//! Points in time at which operations complete.
use vstd::prelude::*;

verus! {

/// A point in time, as microseconds since 1970-01-01T00:00:00 UTC.
#[derive(Debug, Clone, Copy, PartialEq, Eq)]
pub struct Timestamp {
    pub micros: i64,
}

/// Relies on chrono's `From<SystemTime> for DateTime<Utc>` and
/// `DateTime::timestamp_micros`: reads the system clock, a reading before 1970
/// giving a negative count. Nothing is promised of the value read.
#[verifier::external_body]
pub(crate) fn now() -> (r: Timestamp) {
    let t = chrono::DateTime::<chrono::Utc>::from(std::time::SystemTime::now());
    Timestamp { micros: t.timestamp_micros() }
}

} // verus!
