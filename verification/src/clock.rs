//! Points in time, as the ledger stamps them on its records.

use vstd::prelude::*;

verus! {

/// A point in time: whole seconds since 1970-01-01 00:00:00 UTC, and the
/// nanoseconds since that second began.
#[derive(Clone, Copy, Debug, PartialEq, Eq, Structural)]
pub struct Timestamp {
    pub seconds: i64,
    pub nanoseconds: u32,
}

/// Reads the clock with `chrono::Utc::now` and hands the instant out as the
/// pair that `DateTime::timestamp` and `DateTime::timestamp_subsec_nanos`
/// give for it.
///
/// The contract is empty: the result is whatever the clock says, and
/// nothing is assumed of it. `Utc::now` aborts when the system clock stands
/// before 1970.
#[verifier::external_body]
pub(crate) fn current_time() -> (now: Timestamp) {
    let now = chrono::Utc::now();
    Timestamp { seconds: now.timestamp(), nanoseconds: now.timestamp_subsec_nanos() }
}

} // verus!
