//! The wall clock.

use crate::entity::Timestamp;
use vstd::prelude::*;

verus! {

/// Reads the system clock through `std::time::SystemTime::now` and chrono's
/// conversion of a `SystemTime` into a `DateTime<Utc>`, and hands back the
/// seconds and nanoseconds that chrono's `timestamp` and
/// `timestamp_subsec_nanos` report for it.
///
/// Trusted, and deliberately silent about the result: two readings need not
/// agree, and nothing is promised about the instant beyond its type. The
/// conversion rejects instants more than some 260,000 years from the epoch,
/// which no running clock reports.
#[verifier::external_body]
pub(crate) fn system_now() -> (now: Timestamp) {
    let at: chrono::DateTime<chrono::Utc> = std::time::SystemTime::now().into();
    Timestamp { secs: at.timestamp(), nanos: at.timestamp_subsec_nanos() }
}

} // verus!
