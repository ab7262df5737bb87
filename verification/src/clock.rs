//! The two clocks that a session reads: a monotonic one, by which it measures
//! how long it has lasted, and the wall clock.
//!
//! Nothing is claimed of what either clock reads.

use vstd::prelude::*;

use std::time::{Duration, SystemTime, SystemTimeError};
use tokio::time::Instant;

verus! {

/// `tokio::time::Instant`: a reading of the monotonic clock.
#[verifier::external_type_specification]
#[verifier::external_body]
pub struct ExInstant(Instant);

/// `std::time::SystemTime`: a reading of the wall clock.
#[verifier::external_type_specification]
#[verifier::external_body]
pub struct ExSystemTime(SystemTime);

/// `std::time::SystemTimeError`: by how much one wall clock reading precedes
/// another.
#[verifier::external_type_specification]
#[verifier::external_body]
pub struct ExSystemTimeError(SystemTimeError);

/// `tokio::time::Instant::now` reads the monotonic clock. It returns; nothing
/// is claimed of the reading.
pub assume_specification[ Instant::now ]() -> (now: Instant);

/// `tokio::time::Instant::elapsed` measures the time from `start` to now, zero
/// where `start` is later. It returns; nothing is claimed of the measure.
pub assume_specification[ Instant::elapsed ](start: &Instant) -> (elapsed: Duration);

/// `std::time::Duration::as_secs` gives the whole seconds of a duration. A
/// duration is opaque here, so nothing is claimed of their number.
pub assume_specification[ Duration::as_secs ](duration: &Duration) -> (secs: u64);

/// `std::time::SystemTime::now` reads the wall clock. It returns; nothing is
/// claimed of the reading.
pub assume_specification[ SystemTime::now ]() -> (now: SystemTime);

/// `std::time::SystemTime::duration_since`, with `std::time::UNIX_EPOCH` as
/// the earlier time: how long after the epoch `time` is, or an error where it
/// is before. Nothing is claimed of which.
#[verifier::external_body]
pub(crate) fn since_unix_epoch(time: &SystemTime) -> (since: Result<Duration, SystemTimeError>) {
    time.duration_since(std::time::UNIX_EPOCH)
}

/// The wall clock in whole seconds since the Unix epoch, or, where it is set
/// before the epoch, what the clock's error says.
pub(crate) fn wall_clock_secs() -> Result<u64, String> {
    let now = SystemTime::now();
    match since_unix_epoch(&now) {
        Ok(since) => Ok(since.as_secs()),
        Err(before) => Err(before.to_string()),
    }
}

/// The whole seconds that have passed since `start`.
pub(crate) fn elapsed_secs(start: &Instant) -> u64 {
    start.elapsed().as_secs()
}

} // verus!
