use vstd::prelude::*;

verus! {

/// Relies on chrono::Utc::now for the host wall clock, read as nanoseconds
/// since the Unix epoch. Nothing is promised of the value: callers handle
/// every outcome, and the log collector corrects non-increasing readings.
#[verifier::external_body]
pub fn get_ic_time_nanos() -> u64 {
    chrono::Utc::now().timestamp_nanos_opt().unwrap_or(0) as u64
}

} // verus!
