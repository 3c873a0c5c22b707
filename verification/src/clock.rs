//! Instants. An instant is a count of nanoseconds since the Unix epoch, held
//! in an `i128`; revocation markers are stored as whole seconds.

use vstd::prelude::*;

verus! {

/// Nanoseconds in one second.
pub const NANOS_PER_SECOND: i128 = 1_000_000_000;

/// The first second that a date-time can hold: the start of the year -9999.
pub const MIN_UNIX_SECONDS: i64 = -377_705_116_800;

/// The last second that a date-time can hold: the end of the year 9999.
pub const MAX_UNIX_SECONDS: i64 = 253_402_300_799;

/// The instant that a count of seconds since the Unix epoch stands for, if
/// the count lies within the years that a date-time can hold.
pub open spec fn instant_of_unix_seconds(seconds: i64) -> Option<i128> {
    if MIN_UNIX_SECONDS <= seconds <= MAX_UNIX_SECONDS {
        Some((seconds * NANOS_PER_SECOND) as i128)
    } else {
        None
    }
}

/// Calls `time::OffsetDateTime::from_unix_timestamp` and reads the result
/// back with `unix_timestamp_nanos`. Trusted: the call succeeds exactly on
/// the seconds from the start of the year -9999 to the end of the year 9999,
/// and the date-time it gives lies that many whole seconds from the epoch.
#[verifier::external_body]
pub(crate) fn unix_seconds_to_instant(seconds: i64) -> (instant: Option<i128>)
    ensures
        instant == instant_of_unix_seconds(seconds),
{
    time::OffsetDateTime::from_unix_timestamp(seconds).ok().map(|at| at.unix_timestamp_nanos())
}

/// The instant that lies `seconds` and `nanos` after the Unix epoch.
pub open spec fn instant_of_parts(seconds: u64, nanos: u32) -> int {
    seconds * NANOS_PER_SECOND + nanos
}

/// The instant that lies `seconds` and `nanos` after the Unix epoch.
pub fn instant_from_parts(seconds: u64, nanos: u32) -> (instant: i128)
    ensures
        instant == instant_of_parts(seconds, nanos),
{
    assert(0 <= seconds * NANOS_PER_SECOND <= 0xFFFF_FFFF_FFFF_FFFF * 1_000_000_000)
        by (nonlinear_arith)
        requires
            0 <= seconds <= 0xFFFF_FFFF_FFFF_FFFF,
            NANOS_PER_SECOND == 1_000_000_000,
    ;
    let whole: i128 = seconds as i128;
    whole * NANOS_PER_SECOND + nanos as i128
}

/// Whether more than `window` has passed at `now` since `since`.
pub open spec fn older_than(now: i128, since: int, window: i128) -> bool {
    now - since > window
}

/// Whether more than `window` has passed at `now` since the instant that
/// lies `seconds` and `nanos` after the Unix epoch.
pub fn is_older_than(now: i128, seconds: u64, nanos: u32, window: i128) -> (older: bool)
    ensures
        older == older_than(now, instant_of_parts(seconds, nanos), window),
{
    let since = instant_from_parts(seconds, nanos);
    match now.checked_sub(since) {
        Some(age) => age > window,
        None => false,
    }
}

} // verus!
