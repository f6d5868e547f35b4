//! The clock.

use std::time::SystemTime;
use vstd::prelude::*;

use crate::clock::{
    now_unix_ms, span_since_epoch, unix_ms, unix_ms_at, unix_ms_of, whole_millis,
};

verus! {

/// A span that could be measured is taken as it is, and one that could not as none.
pub proof fn spans_that_cannot_be_measured_count_as_none(elapsed: Option<u128>, ms: u128)
    requires
        call_ensures(unix_ms_of, (elapsed,), ms),
    ensures
        elapsed is Some ==> ms == elapsed->0,
        elapsed is None ==> ms == 0,
{
}

/// The time of a reading is the whole milliseconds since the epoch, and zero before the epoch.
pub proof fn readings_count_from_the_epoch(reading: SystemTime, ms: u128)
    requires
        call_ensures(unix_ms_at, (reading,), ms),
    ensures
        span_since_epoch(reading) is Some ==> ms == whole_millis(span_since_epoch(reading)->0),
        span_since_epoch(reading) is None ==> ms == 0,
{
}

/// The present time is that of some reading, and the same as any that this reading gives.
pub proof fn the_present_is_a_reading(now: u128)
    requires
        call_ensures(now_unix_ms, (), now),
    ensures
        exists|reading: SystemTime| now == #[trigger] unix_ms(reading) && (now == 0
            || span_since_epoch(reading) is Some && now == whole_millis(
            span_since_epoch(reading)->0,
        )),
{
}

} // verus!
