//! The clock provider: whole seconds elapsed since 1970-01-01T00:00:00Z.
use std::time::{Duration, SystemTimeError};
use vstd::prelude::*;

verus! {

#[verifier::external_type_specification]
#[verifier::external_body]
pub struct ExSystemTimeError(SystemTimeError);

/// Relies on `SystemTime::elapsed`, called on `UNIX_EPOCH`: the span from the
/// epoch to the current wall-clock time, or an error when the clock reads
/// earlier than the epoch. The outcome depends on the moment of the call, so
/// nothing is stated of it.
#[verifier::external_body]
fn elapsed_since_epoch() -> (r: Result<Duration, SystemTimeError>) {
    std::time::UNIX_EPOCH.elapsed()
}

/// Relies on `Duration::as_secs`: the whole seconds of a span. A `Duration`
/// is opaque to the proofs, so nothing is stated of the count.
pub assume_specification[ Duration::as_secs ](d: &Duration) -> u64;

/// Why a clock read produced no elapsed time.
#[derive(Debug, Clone, Copy, PartialEq, Eq, Structural)]
pub enum ClockError {
    /// The wall clock reads earlier than the epoch.
    ClockBehindEpoch,
}

/// The clock provider. It holds no state: every call reads the system clock.
#[derive(Debug, Default)]
pub struct TimeService {}

impl TimeService {
    pub fn new() -> (r: TimeService) {
        TimeService {  }
    }

    /// Returns the number of whole seconds since the unix epoch, or
    /// `ClockBehindEpoch` when the system clock reads earlier than the epoch.
    /// The failure is not transient, so it is reported at once, never retried.
    pub fn what_time_is_it(&self) -> (r: Result<u64, ClockError>)
        ensures
            r is Ok || r == Err::<u64, ClockError>(ClockError::ClockBehindEpoch),
    {
        match elapsed_since_epoch() {
            Ok(elapsed) => Ok(elapsed.as_secs()),
            Err(_) => Err(ClockError::ClockBehindEpoch),
        }
    }
}

} // verus!
