//! Spans of time, as `std::time::Duration` holds them.

use vstd::prelude::*;
use std::time::{Duration, SystemTime};

verus! {

/// Nanoseconds in a second.
pub const NANOS_PER_SEC: u64 = 1_000_000_000;

/// Nanoseconds in a millisecond.
pub const NANOS_PER_MILLI: u64 = 1_000_000;

/// The length of a span of time in nanoseconds.
pub uninterp spec fn duration_nanos(d: Duration) -> nat;

/// `Duration::from_secs` returns the span of that many whole seconds.
pub assume_specification[ Duration::from_secs ](secs: u64) -> (d: Duration)
    ensures
        duration_nanos(d) == secs as nat * NANOS_PER_SEC as nat,
;

/// `Duration::from_millis` returns the span of that many whole milliseconds.
pub assume_specification[ Duration::from_millis ](millis: u64) -> (d: Duration)
    ensures
        duration_nanos(d) == millis as nat * NANOS_PER_MILLI as nat,
;

/// `Duration::as_secs` returns the number of whole seconds in the span.
pub assume_specification[ Duration::as_secs ](d: &Duration) -> (secs: u64)
    ensures
        secs as nat == duration_nanos(*d) / NANOS_PER_SEC as nat,
;

/// `Duration::as_millis` returns the number of whole milliseconds in the span.
pub assume_specification[ Duration::as_millis ](d: &Duration) -> (millis: u128)
    ensures
        millis as nat == duration_nanos(*d) / NANOS_PER_MILLI as nat,
;

/// `Duration::clone` returns a copy of the span.
pub assume_specification[ <Duration as Clone>::clone ](d: &Duration) -> (r: Duration)
    ensures
        r == *d,
;

/// The whole milliseconds of a span, the largest number if they do not fit.
pub open spec fn millis_of(d: Duration) -> u64 {
    if duration_nanos(d) / NANOS_PER_MILLI as nat <= u64::MAX {
        (duration_nanos(d) / NANOS_PER_MILLI as nat) as u64
    } else {
        u64::MAX
    }
}

/// The whole milliseconds of a span, the largest number if they do not fit.
pub fn duration_millis(d: &Duration) -> (ms: u64)
    ensures
        ms == millis_of(*d),
{
    let ms: u128 = d.as_millis();
    if ms <= 0xffff_ffff_ffff_ffff {
        ms as u64
    } else {
        0xffff_ffff_ffff_ffff
    }
}

/// How the standard library writes a span of so many nanoseconds for debugging.
pub uninterp spec fn duration_debug_text(nanos: nat) -> Seq<char>;

/// The text that `Debug` formatting gives for a span, such as `30s` or
/// `1.5s`. The text depends on the length of the span alone.
#[verifier::external_body]
pub(crate) fn debug_text(d: &Duration) -> (s: String)
    ensures
        s@ == duration_debug_text(duration_nanos(*d)),
{
    format!("{:?}", d)
}

/// `std::time::SystemTime`, a reading of the system clock.
#[verifier::external_type_specification]
#[verifier::external_body]
pub struct ExSystemTime(SystemTime);

/// `SystemTime::now` reads the system clock. Nothing is stated of a reading.
#[verifier::external_body]
pub(crate) fn system_now() -> SystemTime {
    SystemTime::now()
}

/// `SystemTime::duration_since` on the Unix epoch gives the span from the
/// epoch to the reading, and none for a reading before the epoch. Nothing
/// is stated of a reading.
#[verifier::external_body]
pub(crate) fn since_unix_epoch(reading: &SystemTime) -> Option<Duration> {
    reading.duration_since(std::time::UNIX_EPOCH).ok()
}

/// The whole seconds of a span since the Unix epoch; zero where there is no
/// span because the clock stands before the epoch.
pub open spec fn epoch_seconds_of(since: Option<Duration>) -> u64 {
    match since {
        Some(d) => (duration_nanos(d) / NANOS_PER_SEC as nat) as u64,
        None => 0,
    }
}

/// The whole seconds of a span since the Unix epoch.
pub fn epoch_seconds(since: Option<Duration>) -> (secs: u64)
    ensures
        secs == epoch_seconds_of(since),
{
    match since {
        Some(d) => d.as_secs(),
        None => 0,
    }
}

} // verus!
