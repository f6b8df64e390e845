//! Readings of the process clocks. A reading depends on the moment of the
//! call, so nothing is promised of it; the verified code around these
//! functions is correct for every reading.

use std::time::{Duration, Instant};
use vstd::prelude::*;

verus! {

/// A point on the monotonic clock (`std::time::Instant`), carried opaquely.
#[verifier::external_type_specification]
#[verifier::external_body]
pub struct ExInstant(Instant);

/// The whole number of nanoseconds in a duration (`Duration::as_nanos`).
pub uninterp spec fn duration_nanos(d: Duration) -> u128;

/// The whole number of milliseconds in a duration (`Duration::as_millis`).
pub uninterp spec fn duration_millis(d: Duration) -> u128;

/// Calls `std::time::Instant::now`: the current monotonic time. Nothing is
/// promised of the reading.
#[verifier::external_body]
pub(crate) fn instant_now() -> (t: Instant) {
    Instant::now()
}

/// Calls `std::time::Instant::elapsed` on `start`: the time since `start`
/// (zero when `start` is later than now). Nothing is promised of the
/// reading.
#[verifier::external_body]
pub(crate) fn elapsed_since(start: &Instant) -> (d: Duration) {
    start.elapsed()
}

/// Calls `std::time::SystemTime::elapsed` on `UNIX_EPOCH`: the wall-clock
/// time since the epoch, `None` when the system clock reads earlier than the
/// epoch. Nothing is promised of the reading.
#[verifier::external_body]
pub(crate) fn since_unix_epoch() -> (d: Option<Duration>) {
    match std::time::SystemTime::UNIX_EPOCH.elapsed() {
        Ok(d) => Some(d),
        Err(_) => None,
    }
}

/// Calls `Duration::as_nanos`: the whole nanoseconds of `d`, named
/// [`duration_nanos`].
#[verifier::external_body]
pub(crate) fn as_nanos(d: &Duration) -> (n: u128)
    ensures
        n == duration_nanos(*d),
{
    d.as_nanos()
}

/// Calls `Duration::as_millis`: the whole milliseconds of `d`, named
/// [`duration_millis`].
#[verifier::external_body]
pub(crate) fn as_millis(d: &Duration) -> (n: u128)
    ensures
        n == duration_millis(*d),
{
    d.as_millis()
}

/// The time since `start` in whole nanoseconds.
pub(crate) fn nanos_since(start: &Instant) -> (n: u128)
    ensures
        exists|d: Duration| n == #[trigger] duration_nanos(d),
{
    let d = elapsed_since(start);
    as_nanos(&d)
}

/// The wall-clock time since the UNIX epoch in whole milliseconds, `None`
/// when the system clock reads earlier than the epoch.
pub(crate) fn unix_time_millis() -> (ms: Option<u128>)
    ensures
        ms matches Some(n) ==> exists|d: Duration| n == #[trigger] duration_millis(d),
{
    match since_unix_epoch() {
        Some(d) => Some(as_millis(&d)),
        None => None,
    }
}

} // verus!
