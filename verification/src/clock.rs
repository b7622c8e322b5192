//! Time: instants, durations and the wall clock, all read through std.
use vstd::prelude::*;
use std::time::{Duration, Instant, SystemTime};

verus! {

/// A point in time on the monotonic clock (`std::time::Instant`), carried
/// opaquely.
#[verifier::external_type_specification]
#[verifier::external_body]
pub struct ExInstant(Instant);

/// Calls `Instant::now`. The result depends on the clock; nothing is stated
/// of it.
#[verifier::external_body]
pub(crate) fn instant_now() -> (t: Instant) {
    Instant::now()
}

/// Calls `Instant::duration_since`: the time from `earlier` to `later`, or
/// zero when `earlier` is later. Nothing is stated of the value.
#[verifier::external_body]
pub(crate) fn duration_since(later: &Instant, earlier: &Instant) -> (d: Duration) {
    later.duration_since(*earlier)
}

/// Calls `Instant::elapsed`: the time since `t`, read from the clock.
/// Nothing is stated of the value.
#[verifier::external_body]
pub(crate) fn elapsed(t: &Instant) -> (d: Duration) {
    t.elapsed()
}

/// What `Duration::as_millis` gives for a duration: its whole milliseconds.
pub uninterp spec fn whole_millis(d: Duration) -> u128;

/// Calls `Duration::as_millis`; the result depends on the duration alone and
/// is given the name `whole_millis`.
#[verifier::external_body]
pub(crate) fn as_millis(d: &Duration) -> (ms: u128)
    ensures
        ms == whole_millis(*d),
{
    d.as_millis()
}

/// What `Duration::as_secs` gives for a duration: its whole seconds.
pub uninterp spec fn whole_secs(d: Duration) -> u64;

/// Calls `Duration::as_secs`; the result depends on the duration alone and is
/// given the name `whole_secs`.
#[verifier::external_body]
pub(crate) fn as_secs(d: &Duration) -> (s: u64)
    ensures
        s == whole_secs(*d),
{
    d.as_secs()
}

/// A point in time on the wall clock (`std::time::SystemTime`), carried
/// opaquely.
#[verifier::external_type_specification]
#[verifier::external_body]
pub struct ExSystemTime(SystemTime);

/// Calls `SystemTime::now`. The result depends on the clock; nothing is
/// stated of it.
#[verifier::external_body]
pub(crate) fn system_now() -> (t: SystemTime) {
    SystemTime::now()
}

/// Calls `SystemTime::duration_since` with the Unix epoch: the time since
/// 1970-01-01 00:00:00 UTC, or `None` for a time before it. Nothing is stated
/// of the value.
#[verifier::external_body]
pub(crate) fn since_unix_epoch(t: &SystemTime) -> (d: Option<Duration>) {
    t.duration_since(std::time::UNIX_EPOCH).ok()
}

/// The whole seconds since the Unix epoch on the wall clock, zero for a clock
/// set before it.
pub fn unix_time_secs() -> (s: u64) {
    let now = system_now();
    match since_unix_epoch(&now) {
        Some(d) => as_secs(&d),
        None => 0,
    }
}

} // verus!
