//! Readings of the machine's clocks, and the arithmetic on them.

use vstd::prelude::*;
use vstd::string::*;
use std::time::Duration;
use std::time::Instant;

verus! {

/// `std::time::Instant`, declared so that it can stand in signatures and
/// fields. Nothing is known of what it holds.
#[verifier::external_type_specification]
#[verifier::external_body]
pub struct ExInstant(Instant);

/// Trusted: `Instant` is `Copy`, so its `clone` returns the same instant.
pub assume_specification[ <Instant as Clone>::clone ](t: &Instant) -> (r: Instant)
    ensures
        r == *t,
;

/// The time from `earlier` to `later` on the monotonic clock, zero where
/// `later` is the earlier one.
pub uninterp spec fn time_since(earlier: Instant, later: Instant) -> Duration;

/// The nanoseconds from `earlier` to `later`, zero where `later` is the
/// earlier one.
pub open spec fn nanos_since(earlier: Instant, later: Instant) -> nat {
    duration_nanos(time_since(earlier, later))
}

/// The length of a duration in nanoseconds.
pub uninterp spec fn duration_nanos(d: Duration) -> nat;

/// Trusted: `Instant::now` reads the monotonic clock. Nothing is stated of
/// the reading.
#[verifier::external_body]
pub(crate) fn monotonic_now() -> (t: Instant)
{
    Instant::now()
}

/// Trusted: `Instant::saturating_duration_since` gives the time from
/// `earlier` to `later`, zero where `earlier` is the later one or the same
/// instant; it depends on the two instants alone.
#[verifier::external_body]
pub(crate) fn time_between(later: &Instant, earlier: &Instant) -> (d: Duration)
    ensures
        d == time_since(*earlier, *later),
        *later == *earlier ==> duration_nanos(d) == 0,
{
    later.saturating_duration_since(*earlier)
}

/// Trusted: `Duration::as_nanos` gives the length of a duration.
#[verifier::external_body]
pub(crate) fn nanos_of(d: &Duration) -> (n: u128)
    ensures
        n == duration_nanos(*d),
{
    d.as_nanos()
}

/// Trusted: `Duration::from_secs` makes the duration of that many seconds.
#[verifier::external_body]
pub(crate) fn seconds(secs: u64) -> (d: Duration)
    ensures
        duration_nanos(d) == secs * 1_000_000_000,
{
    Duration::from_secs(secs)
}

/// Trusted: `SystemTime::now` reads the wall clock; `duration_since` gives
/// its seconds since the Unix epoch, nothing where it stands before it.
#[verifier::external_body]
pub(crate) fn wall_clock_secs() -> (r: Option<u64>)
{
    std::time::SystemTime::now().duration_since(std::time::UNIX_EPOCH).ok().map(|d| d.as_secs())
}

/// The wall clock in whole seconds since the Unix epoch; zero where the
/// clock stands before it. Nothing can be stated of the reading itself.
pub(crate) fn unix_now() -> (now: u64)
{
    seconds_or_epoch(wall_clock_secs())
}

/// Trusted: `chrono::Utc::now` reads the wall clock and `to_rfc3339` writes
/// the reading as a date, a time and the offset from UTC, which is zero and
/// is written as `+00:00`. Which date and time is not stated.
#[verifier::external_body]
fn utc_now_text() -> (r: String)
    ensures
        is_utc_stamp(r@),
{
    chrono::Utc::now().to_rfc3339()
}

/// The current date and time in UTC as an RFC 3339 text, the epoch itself
/// where the clock stands before it: in either case a date and a time with
/// the offset `+00:00`. The clock is read before `chrono` is asked.
pub(crate) fn timestamp_now() -> (r: String)
    ensures
        is_utc_stamp(r@),
{
    match wall_clock_secs() {
        Some(_) => utc_now_text(),
        None => {
            proof {
                reveal_strlit("1970-01-01T00:00:00+00:00");
                reveal_strlit("+00:00");
            }
            String::from_str("1970-01-01T00:00:00+00:00")
        },
    }
}

/// The seconds since the Unix epoch that a reading of the wall clock gives:
/// zero for a clock that stands before the epoch.
pub open spec fn epoch_seconds(reading: Option<u64>) -> u64 {
    match reading {
        Some(secs) => secs,
        None => 0,
    }
}

/// Gives the seconds since the Unix epoch for a reading of the wall clock.
pub(crate) fn seconds_or_epoch(reading: Option<u64>) -> (now: u64)
    ensures
        now == epoch_seconds(reading),
{
    match reading {
        Some(secs) => secs,
        None => 0,
    }
}

/// `s` has the length of a date and time in UTC at least, and ends with the
/// offset `+00:00`.
pub open spec fn is_utc_stamp(s: Seq<char>) -> bool {
    s.len() >= 25 && "+00:00"@.is_suffix_of(s)
}

} // verus!
