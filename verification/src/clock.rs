//! The clocks and durations of `std::time`.
use vstd::prelude::*;
use std::time::{Duration, Instant, SystemTime};

verus! {

/// A point on the monotonic clock.
#[verifier::external_type_specification]
#[verifier::external_body]
pub struct ExInstant(std::time::Instant);

/// A point on the system clock.
#[verifier::external_type_specification]
#[verifier::external_body]
pub struct ExSystemTime(std::time::SystemTime);

/// The largest number of nanoseconds a `Duration` can hold.
pub open spec fn max_duration_nanos() -> int {
    18446744073709551615int * 1000000000 + 999999999
}

/// The length of a duration in nanoseconds (what `Duration::as_nanos`
/// gives).
pub uninterp spec fn duration_length(d: Duration) -> nat;

/// Reads the monotonic clock (`Instant::now`).
#[verifier::external_body]
pub(crate) fn instant_now() -> Instant {
    Instant::now()
}

/// The time elapsed since an instant (`Instant::elapsed`).  Its length
/// depends on the time of the call; like that of every `Duration`, it is at
/// most the longest a `Duration` can hold.
#[verifier::external_body]
pub(crate) fn elapsed_since(origin: &Instant) -> (r: Duration)
    ensures
        duration_length(r) <= max_duration_nanos(),
{
    origin.elapsed()
}

/// Reads the system clock (`SystemTime::now`).
#[verifier::external_body]
pub(crate) fn system_now() -> SystemTime {
    SystemTime::now()
}

/// The time from the Unix epoch to `t` (`SystemTime::duration_since` with
/// `UNIX_EPOCH`), `None` where `t` is before the epoch.  Nothing is stated of
/// the value: it depends on the clock, beyond that its length, like that of
/// every `Duration`, is at most the longest a `Duration` can hold.
#[verifier::external_body]
pub(crate) fn since_unix_epoch(t: SystemTime) -> (r: Option<Duration>)
    ensures
        r matches Some(d) ==> duration_length(d) <= max_duration_nanos(),
{
    t.duration_since(std::time::UNIX_EPOCH).ok()
}

/// The length of a duration in nanoseconds (`Duration::as_nanos`), at most
/// the largest length a `Duration` can hold.
#[verifier::external_body]
pub(crate) fn duration_nanos(d: Duration) -> (r: u128)
    ensures
        r == duration_length(d),
        r <= max_duration_nanos(),
{
    d.as_nanos()
}

/// The whole seconds of a duration (`Duration::as_secs`).
#[verifier::external_body]
pub(crate) fn duration_secs(d: Duration) -> (r: u64)
    ensures
        r == duration_length(d) / 1_000_000_000,
{
    d.as_secs()
}

/// The nanoseconds of a duration beyond its whole seconds
/// (`Duration::subsec_nanos`), always less than a billion.
#[verifier::external_body]
pub(crate) fn duration_subsec_nanos(d: Duration) -> (r: u32)
    ensures
        r == duration_length(d) % 1_000_000_000,
        r < 1_000_000_000,
{
    d.subsec_nanos()
}

/// A duration of `secs` seconds and `nanos` nanoseconds (`Duration::new`);
/// with `nanos` under a billion nothing carries into the seconds, so the call
/// does not panic.
#[verifier::external_body]
pub(crate) fn duration_new(secs: u64, nanos: u32) -> (r: Duration)
    requires
        nanos < 1_000_000_000,
    ensures
        duration_length(r) == secs * 1_000_000_000 + nanos,
{
    Duration::new(secs, nanos)
}

/// A duration of `n` nanoseconds.
pub(crate) fn duration_from_nanos(n: u128) -> (r: Duration)
    requires
        n <= max_duration_nanos(),
    ensures
        duration_length(r) == n,
{
    let secs = n / 1_000_000_000;
    assert(secs <= 18446744073709551615u128);
    duration_new(secs as u64, (n % 1_000_000_000) as u32)
}

/// Nanoseconds from `origin` to now on the monotonic clock: at most the
/// longest `Duration`; the value depends on the time of the call.
pub(crate) fn nanos_since(origin: &Instant) -> (r: u128)
    ensures
        r <= max_duration_nanos(),
{
    duration_nanos(elapsed_since(origin))
}

/// Seconds and nanoseconds since the Unix epoch on the system clock, zero
/// where the clock is before the epoch.
pub(crate) fn unix_time() -> (r: (u64, u32))
    ensures
        r.1 < 1_000_000_000,
{
    match since_unix_epoch(system_now()) {
        Some(d) => (duration_secs(d), duration_subsec_nanos(d)),
        None => (0, 0),
    }
}

} // verus!
