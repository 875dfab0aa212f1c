//! Where creation times come from.

use chrono::Utc;
use vstd::prelude::*;

verus! {

/// A point in time: whole seconds since 1970-01-01 00:00:00 UTC and the
/// nanoseconds past that second.
#[derive(Clone, Copy, Debug, PartialEq, Eq, Structural)]
pub struct Timestamp {
    pub secs: i64,
    pub nanos: u32,
}

/// Reads the clock with `chrono::Utc::now` and takes the result apart
/// with `DateTime::timestamp` and `DateTime::timestamp_subsec_nanos`.
/// Nothing is promised of the time that comes back.
#[verifier::external_body]
pub(crate) fn now() -> (time: Timestamp) {
    let time = Utc::now();
    Timestamp { secs: time.timestamp(), nanos: time.timestamp_subsec_nanos() }
}

} // verus!
