//! The wall clock.

use std::time::{Duration, SystemTime, SystemTimeError};
use vstd::prelude::*;

verus! {

/// The latest time that a span since the epoch can denote, in milliseconds.
pub const LATEST_UNIX_MS: u128 = 18_446_744_073_709_551_615_999;

#[verifier::external_type_specification]
#[verifier::external_body]
pub struct ExSystemTime(SystemTime);

#[verifier::external_type_specification]
#[verifier::external_body]
pub struct ExSystemTimeError(SystemTimeError);

/// The span from the epoch to a reading of the clock, where the reading does not lie before it.
pub uninterp spec fn span_since_epoch(reading: SystemTime) -> Option<Duration>;

/// The whole milliseconds of a span.
pub uninterp spec fn whole_millis(span: Duration) -> u128;

/// The time that a reading of the clock tells, in milliseconds since the epoch.
pub open spec fn unix_ms(reading: SystemTime) -> u128 {
    match span_since_epoch(reading) {
        Some(span) => whole_millis(span),
        None => 0,
    }
}

/// `SystemTime::now` reads the clock: nothing is claimed of what it reads.
pub assume_specification [ SystemTime::now ]() -> SystemTime;

/// `SystemTime::duration_since` measures the span from `SystemTime::UNIX_EPOCH` to a reading of
/// the clock, or fails where the reading lies before the epoch. Both depend on the reading alone.
#[verifier::external_body]
fn since_epoch(reading: SystemTime) -> (span: Result<Duration, SystemTimeError>)
    ensures
        span is Ok <==> span_since_epoch(reading) is Some,
        span is Ok ==> span_since_epoch(reading) == Some(span->Ok_0),
{
    reading.duration_since(SystemTime::UNIX_EPOCH)
}

/// `Duration::as_millis` counts the whole milliseconds of a span. A span holds its seconds in 64
/// bits, so the count stays below a thousand times their range.
pub assume_specification [ Duration::as_millis ](span: &Duration) -> (ms: u128)
    ensures
        ms == whole_millis(*span),
        ms <= LATEST_UNIX_MS,
;

/// The time that a reading of the clock stands for: a clock that is set before the epoch
/// counts as standing at the epoch.
pub fn unix_ms_of(elapsed: Option<u128>) -> (ms: u128)
    ensures
        elapsed matches Some(passed) ==> ms == passed,
        elapsed is None ==> ms == 0,
{
    match elapsed {
        Some(passed) => passed,
        None => 0,
    }
}

/// Returns the time that a reading of the clock tells, in milliseconds since the epoch.
pub fn unix_ms_at(reading: SystemTime) -> (ms: u128)
    ensures
        ms == unix_ms(reading),
        ms <= LATEST_UNIX_MS,
{
    let elapsed: Option<u128> = match since_epoch(reading) {
        Ok(span) => Some(span.as_millis()),
        Err(_) => None,
    };
    unix_ms_of(elapsed)
}

/// Reads the clock, in milliseconds since the epoch. What the clock reads is left open.
pub fn now_unix_ms() -> (ms: u128)
    ensures
        exists|reading: SystemTime| ms == #[trigger] unix_ms(reading),
        ms <= LATEST_UNIX_MS,
{
    unix_ms_at(SystemTime::now())
}

} // verus!
