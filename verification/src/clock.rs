//! Readings of the system's clocks.
//!
//! Nothing is known of a reading but its type: callers state what holds
//! whatever the clocks say.

use std::time::{Instant, SystemTime};
use vstd::prelude::*;

verus! {

/// A reading of the monotonic clock.
#[verifier::external_type_specification]
#[verifier::external_body]
pub struct ExInstant(Instant);

/// A reading of the wall clock.
#[verifier::external_type_specification]
#[verifier::external_body]
pub struct ExSystemTime(SystemTime);

/// `Instant::now` reads the monotonic clock; nothing is known of the
/// reading.
pub assume_specification[ Instant::now ]() -> Instant;

/// `Instant::elapsed` measures the time since the reading; nothing is known
/// of the amount.
pub assume_specification[ Instant::elapsed ](start: &Instant) -> std::time::Duration;

/// `Duration::as_millis` gives the span in whole milliseconds; nothing is
/// stated of it here.
pub assume_specification[ std::time::Duration::as_millis ](d: &std::time::Duration) -> u128;

/// `SystemTime::now` reads the wall clock; nothing is known of the reading.
pub assume_specification[ SystemTime::now ]() -> SystemTime;

/// `SystemTime::duration_since` against `UNIX_EPOCH`: the time since the
/// epoch, or nothing where the clock stands before it.
#[verifier::external_body]
fn since_epoch(t: &SystemTime) -> Option<std::time::Duration> {
    t.duration_since(std::time::UNIX_EPOCH).ok()
}

/// The milliseconds since the Unix epoch that a reading of the wall clock
/// stands for: zero where the clock stands before the epoch (no reading),
/// the largest `i64` where the count does not fit.
pub open spec fn epoch_millis(reading: Option<u128>) -> i64 {
    match reading {
        Some(ms) => if ms > i64::MAX {
            i64::MAX
        } else {
            ms as i64
        },
        None => 0,
    }
}

/// Turns a reading of the wall clock into milliseconds since the epoch.
pub fn millis_of_reading(reading: Option<u128>) -> (ms: i64)
    ensures
        ms == epoch_millis(reading),
        ms >= 0,
{
    match reading {
        Some(ms) => {
            if ms > i64::MAX as u128 {
                i64::MAX
            } else {
                ms as i64
            }
        },
        None => 0,
    }
}

/// `ms` capped at the largest `u64`.
pub open spec fn capped_span(ms: u128) -> u64 {
    if ms > u64::MAX {
        u64::MAX
    } else {
        ms as u64
    }
}

/// Caps a span in milliseconds at the largest `u64`.
pub fn span_of_reading(ms: u128) -> (span: u64)
    ensures
        span == capped_span(ms),
{
    if ms > u64::MAX as u128 {
        u64::MAX
    } else {
        ms as u64
    }
}

/// The wall clock in milliseconds since the Unix epoch, as
/// `millis_of_reading` turns the reading into a count. The reading is the
/// clock's, so only its sign is known.
pub fn now_millis() -> (ms: i64)
    ensures
        ms >= 0,
{
    let now = SystemTime::now();
    let reading: Option<u128> = match since_epoch(&now) {
        Some(d) => Some(d.as_millis()),
        None => None,
    };
    millis_of_reading(reading)
}

/// Milliseconds since `start` on the monotonic clock, as `span_of_reading`
/// caps them. The amount is the clock's: nothing is known of it.
pub fn elapsed_millis(start: &Instant) -> u64 {
    let elapsed = start.elapsed();
    span_of_reading(elapsed.as_millis())
}

} // verus!
