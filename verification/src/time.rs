use vstd::prelude::*;
use std::time::{SystemTime, UNIX_EPOCH};

verus! {

/// Relies on `std::time::SystemTime`: the milliseconds elapsed since the Unix
/// epoch; nothing further can be said of the wall clock. A clock that reads
/// before the epoch reads as zero.
#[verifier::external_body]
pub fn current_timestamp() -> u64 {
    SystemTime::now()
        .duration_since(UNIX_EPOCH)
        .map(|d| d.as_millis() as u64)
        .unwrap_or_default()
}

} // verus!
