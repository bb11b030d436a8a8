//! Points in time, as seconds and nanoseconds since the Unix epoch (UTC).

use vstd::prelude::*;

verus! {

/// A UTC instant: whole seconds since 1970-01-01T00:00:00Z and the
/// nanoseconds past that second.
#[derive(Clone, Copy, Debug, PartialEq, Eq, Structural)]
pub struct Timestamp {
    pub secs: i64,
    pub nanos: u32,
}

/// The current time.
///
/// Relies on chrono's `Utc::now`, read back through `DateTime::timestamp`
/// and `DateTime::timestamp_subsec_nanos`. `Utc::now` builds its value from
/// the system clock's duration since the epoch, so the instant is not before
/// the epoch and is never a leap second.
#[verifier::external_body]
pub fn default_date() -> (r: Timestamp)
    ensures
        r.secs >= 0,
        r.nanos < 1_000_000_000,
{
    let now = chrono::Utc::now();
    Timestamp { secs: now.timestamp(), nanos: now.timestamp_subsec_nanos() }
}

} // verus!
