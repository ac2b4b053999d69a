//! Access to the process clocks. A clock reading depends on when it is taken, so
//! nothing is promised of the instant `instant_now` returns; what is measured from two
//! instants, on the other hand, is a function of those instants (`since`), and the
//! logic that consumes a measurement is written as a verified function that takes it
//! as an argument.

use std::time::{Duration, Instant, SystemTime, SystemTimeError, UNIX_EPOCH};
use vstd::prelude::*;

verus! {

#[verifier::external_type_specification]
#[verifier::external_body]
pub struct ExInstant(Instant);

#[verifier::external_type_specification]
#[verifier::external_body]
pub struct ExSystemTime(SystemTime);

#[verifier::external_type_specification]
#[verifier::external_body]
pub struct ExSystemTimeError(SystemTimeError);

/// Total number of nanoseconds held by a `Duration` (what `Duration::as_nanos` returns).
pub uninterp spec fn nanos_of(d: Duration) -> u128;

/// `Duration::as_nanos`: the total number of nanoseconds contained by the duration.
#[verifier::external_body]
pub(crate) fn duration_as_nanos(d: Duration) -> (r: u128)
    ensures
        r == nanos_of(d),
{
    d.as_nanos()
}

/// `Instant::now`: the current reading of the monotonic clock. Nothing is stated of
/// the returned value.
#[verifier::external_body]
pub(crate) fn instant_now() -> Instant {
    Instant::now()
}

/// What `Instant::duration_since` returns for `later` and `earlier`: the time from
/// `earlier` to `later`, zero when `earlier` is the later of the two.
pub uninterp spec fn duration_between(later: Instant, earlier: Instant) -> Duration;

/// `Instant::duration_since`: the duration from `earlier` to `later` (std documents that
/// it saturates at zero rather than panicking). Its result is a function of the two
/// instants alone.
#[verifier::external_body]
pub(crate) fn instant_duration_since(later: &Instant, earlier: &Instant) -> (r: Duration)
    ensures
        r == duration_between(*later, *earlier),
{
    later.duration_since(*earlier)
}

/// `SystemTime::now`: the current wall-clock time. Nothing is stated of it.
#[verifier::external_body]
pub(crate) fn system_time_now() -> SystemTime {
    SystemTime::now()
}

/// `SystemTime::duration_since(UNIX_EPOCH)`: the time since the Unix epoch, or an error
/// when the clock reads earlier than the epoch. Nothing is stated of the result.
#[verifier::external_body]
pub(crate) fn since_unix_epoch(t: SystemTime) -> Result<Duration, SystemTimeError> {
    t.duration_since(UNIX_EPOCH)
}

/// Nanoseconds of monotonic time from `earlier` to `later` (zero when `earlier` is the
/// later instant).
pub open spec fn since(later: Instant, earlier: Instant) -> nat {
    nanos_of(duration_between(later, earlier)) as nat
}

/// Nanoseconds from `earlier` to `later`, as `Instant::duration_since` measures them.
pub fn nanos_between(later: &Instant, earlier: &Instant) -> (r: u128)
    ensures
        r == since(*later, *earlier),
{
    let d = instant_duration_since(later, earlier);
    duration_as_nanos(d)
}

/// Milliseconds of wall-clock time since the Unix epoch: the whole milliseconds of the
/// duration the clock reports; 0 when the clock reads earlier than the epoch (the
/// default duration).
pub fn wall_clock_millis() -> (r: u128)
    ensures
        r == 0 || exists|d: Duration| r == #[trigger] nanos_of(d) / 1_000_000,
{
    match since_unix_epoch(system_time_now()) {
        Ok(d) => {
            let r = duration_as_nanos(d) / 1_000_000;
            assert(r == nanos_of(d) / 1_000_000);
            r
        },
        Err(_) => 0,
    }
}

} // verus!
