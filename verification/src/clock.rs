//! The system clock.
use vstd::prelude::*;
use std::time::{SystemTime, UNIX_EPOCH};

verus! {

/// Whole seconds since the Unix epoch by the system clock
/// (`SystemTime::now().duration_since(UNIX_EPOCH)`), or the display text of
/// the error when the clock is set before the epoch. Nothing is stated of
/// the value: it is the time.
#[verifier::external_body]
pub(crate) fn unix_time() -> (r: Result<u64, String>) {
    match SystemTime::now().duration_since(UNIX_EPOCH) {
        Ok(d) => Ok(d.as_secs()),
        Err(e) => Err(e.to_string()),
    }
}

} // verus!
