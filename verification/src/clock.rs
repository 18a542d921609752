use std::time::{Duration, SystemTime, UNIX_EPOCH};
use vstd::prelude::*;

verus! {

/// A point in time as the system's clock gives it.
#[verifier::external_type_specification]
#[verifier::external_body]
pub struct ExSystemTime(std::time::SystemTime);

/// Reads the system's clock with `SystemTime::now`. Nothing is claimed of
/// the reading.
#[verifier::external_body]
fn system_now() -> SystemTime {
    SystemTime::now()
}

/// The time that has passed from the Unix epoch to `time`, by
/// `SystemTime::duration_since`, and nothing where `time` lies before the
/// epoch. Nothing is claimed of the result.
#[verifier::external_body]
fn since_epoch(time: &SystemTime) -> Option<Duration> {
    time.duration_since(UNIX_EPOCH).ok()
}

/// The whole milliseconds of a span of time, by `Duration::as_millis`.
/// Nothing is claimed of the result.
#[verifier::external_body]
fn whole_millis(elapsed: &Duration) -> u128 {
    elapsed.as_millis()
}

/// The time that the system's clock shows, as milliseconds since the Unix
/// epoch: 0 for a clock set before the epoch, and the largest number where
/// the milliseconds do not fit 64 bits.
pub(crate) fn now_millis() -> u64 {
    let now = system_now();
    match since_epoch(&now) {
        Some(elapsed) => {
            let millis = whole_millis(&elapsed);
            if millis > u64::MAX as u128 {
                u64::MAX
            } else {
                millis as u64
            }
        },
        None => 0,
    }
}

} // verus!
