use vstd::prelude::*;
use crate::error::TrackerError;

verus! {

/// Seconds in one day.
pub const DAY_SECONDS: i64 = 86400;

/// A bound on the instants the tracker works with, in seconds from the
/// epoch: about 253 000 years either way, well inside chrono's dates
/// (years -262 143 to 262 142).
pub const CLOCK_LIMIT: i64 = 8_000_000_000_000;

/// An instant in seconds that the tracker works with.
pub open spec fn clock_reading(t: i64) -> bool {
    -CLOCK_LIMIT < t && t < CLOCK_LIMIT
}

/// How the local time zone resolves a local midnight.
#[derive(Debug)]
pub enum LocalMidnight {
    /// Exactly one instant, in seconds since the epoch.
    Single(i64),
    /// Two instants (the clock was turned back over it).
    Ambiguous,
    /// No instant (the clock skipped it).
    Missing,
}

/// Relies on `SystemTime::duration_since(UNIX_EPOCH)` applied to
/// `SystemTime::now()`: whole seconds since the epoch, or `None` where the
/// system clock reads before it. (chrono's `Utc::now` panics there.)
#[verifier::external_body]
fn system_clock_seconds() -> (r: Option<u64>) {
    match std::time::SystemTime::now().duration_since(std::time::UNIX_EPOCH) {
        Ok(d) => Some(d.as_secs()),
        Err(_) => None,
    }
}

/// The instant that a reading of the system clock (seconds since the
/// epoch, `None` before it) stands for; a reading at or past the range the
/// tracker works with is refused.
pub fn timestamp_from_clock(seconds: Option<u64>) -> (r: Result<i64, TrackerError>)
    ensures
        r == match seconds {
            Some(s) => if s < CLOCK_LIMIT as u64 {
                Ok::<i64, TrackerError>(s as i64)
            } else {
                Err::<i64, TrackerError>(TrackerError::ClockUnavailable)
            },
            None => Err::<i64, TrackerError>(TrackerError::ClockUnavailable),
        },
{
    match seconds {
        Some(s) => if s < CLOCK_LIMIT as u64 {
            Ok(s as i64)
        } else {
            Err(TrackerError::ClockUnavailable)
        },
        None => Err(TrackerError::ClockUnavailable),
    }
}

/// The current instant in whole seconds since the Unix epoch, by the
/// system clock; a clock that reads before the epoch, or past the range
/// the tracker works with, is refused.
pub fn current_unix_timestamp() -> (r: Result<i64, TrackerError>)
    ensures
        r matches Ok(t) ==> clock_reading(t) && t >= 0,
        r matches Err(e) ==> e == TrackerError::ClockUnavailable,
{
    timestamp_from_clock(system_clock_seconds())
}

/// Relies on chrono: `DateTime::from_timestamp` and `with_timezone(&Local)`
/// give the local date of `now` (`date_naive`); `TimeZone::from_local_datetime`
/// for `Local` resolves its midnight (`and_hms_opt(0, 0, 0)`), and
/// `DateTime::timestamp` reads a single answer. Zone offsets lie strictly
/// within a day (`FixedOffset::east_opt`), so a single midnight is within
/// three days of `now`. The zone lookups fail (and chrono's `expect` fires)
/// only on years outside `i32` or on `i64` overflow, which `requires` rules
/// out; a zone file with an offset of a whole day or more would still make
/// chrono's `Local` panic.
#[verifier::external_body]
fn local_midnight_at(now: i64) -> (r: LocalMidnight)
    requires
        clock_reading(now),
    ensures
        r matches LocalMidnight::Single(t) ==> now - 3 * DAY_SECONDS < t < now + 3 * DAY_SECONDS,
{
    let Some(utc) = chrono::DateTime::from_timestamp(now, 0) else { return LocalMidnight::Missing };
    let Some(m) = utc.with_timezone(&chrono::Local).date_naive().and_hms_opt(0, 0, 0) else {
        return LocalMidnight::Missing;
    };
    match chrono::TimeZone::from_local_datetime(&chrono::Local, &m) {
        chrono::LocalResult::Single(dt) => LocalMidnight::Single(dt.timestamp()),
        chrono::LocalResult::Ambiguous(_, _) => LocalMidnight::Ambiguous,
        chrono::LocalResult::None => LocalMidnight::Missing,
    }
}

/// The half-open window of the local day that starts at `midnight`: one
/// day of absolute seconds from it. A midnight that does not resolve to
/// exactly one instant is refused.
pub fn day_bounds_from(midnight: LocalMidnight) -> (r: Result<(i64, i64), TrackerError>)
    requires
        midnight matches LocalMidnight::Single(t) ==> t <= i64::MAX - DAY_SECONDS,
    ensures
        match midnight {
            LocalMidnight::Single(t) => r == Ok::<(i64, i64), TrackerError>((t, (t + DAY_SECONDS) as i64)),
            _ => r == Err::<(i64, i64), TrackerError>(TrackerError::AmbiguousLocalTime),
        },
{
    match midnight {
        LocalMidnight::Single(t) => Ok((t, t + DAY_SECONDS)),
        _ => Err(TrackerError::AmbiguousLocalTime),
    }
}

/// The window of the local day that holds the instant `now`.
pub fn day_bounds_at(now: i64) -> (r: Result<(i64, i64), TrackerError>)
    requires
        clock_reading(now),
    ensures
        r matches Ok((lo, hi)) ==> now - 3 * DAY_SECONDS < lo < now + 3 * DAY_SECONDS && hi == lo
            + DAY_SECONDS,
        r matches Err(e) ==> e == TrackerError::AmbiguousLocalTime,
{
    day_bounds_from(local_midnight_at(now))
}

/// Today's window in the local time zone, as absolute seconds.
pub fn day_bounds_timestamps() -> (r: Result<(i64, i64), TrackerError>)
    ensures
        r matches Ok((lo, hi)) ==> -CLOCK_LIMIT - 3 * DAY_SECONDS < lo < CLOCK_LIMIT + 3
            * DAY_SECONDS && hi == lo + DAY_SECONDS,
        r matches Err(e) ==> e == TrackerError::AmbiguousLocalTime || e
            == TrackerError::ClockUnavailable,
{
    let now = current_unix_timestamp()?;
    day_bounds_at(now)
}

} // verus!
