use std::time::{Duration, Instant};
use vstd::prelude::*;

verus! {

/// A point in time in UTC: whole seconds since the Unix epoch and the
/// nanoseconds past that second.
#[derive(Debug, Clone, Copy, PartialEq, Eq, Structural)]
pub struct Timestamp {
    pub unix_seconds: i64,
    pub subsec_nanos: u32,
}

/// Calls `chrono::Utc::now` and takes the result apart into its Unix seconds
/// and sub-second nanoseconds. The current time depends on the system clock,
/// so nothing is claimed of the result.
#[verifier::external_body]
pub(crate) fn utc_now() -> Timestamp {
    let now = chrono::Utc::now();
    Timestamp { unix_seconds: now.timestamp(), subsec_nanos: now.timestamp_subsec_nanos() }
}

/// The shape of an RFC 3339 stamp in UTC as chrono writes it: a date of at
/// least four year digits, `T`, a time to the second, and the offset
/// `+00:00` at the end (at least 25 characters in all).
pub open spec fn utc_rfc3339_shape(s: Seq<char>) -> bool {
    &&& s.len() >= 25
    &&& s.subrange(s.len() - 6, s.len() as int) == "+00:00"@
    &&& s.contains('T')
}

/// Calls `chrono::Utc::now` and formats it with `DateTime::to_rfc3339`,
/// which writes the date, `T`, the time and, for UTC, the offset `+00:00`.
/// Which time it is depends on the system clock, so only the shape is
/// claimed.
#[verifier::external_body]
pub(crate) fn utc_now_rfc3339() -> (r: String)
    ensures
        utc_rfc3339_shape(r@),
{
    chrono::Utc::now().to_rfc3339()
}

/// Declares `std::time::Instant`, the monotonic clock reading that marks the
/// end of a session.
#[verifier::external_type_specification]
#[verifier::external_body]
pub struct ExInstant(Instant);

/// Calls `std::time::Instant::now`. The reading depends on the clock, so
/// nothing is claimed of it.
#[verifier::external_body]
pub(crate) fn instant_now() -> Instant {
    Instant::now()
}

/// Calls `std::time::Instant::elapsed`. The time passed depends on the clock,
/// so nothing is claimed of it.
#[verifier::external_body]
pub(crate) fn instant_elapsed(since: &Instant) -> Duration {
    since.elapsed()
}

/// What `std::time::Duration::from_millis` returns for `ms`.
pub uninterp spec fn millis_duration(ms: u64) -> Duration;

/// What `std::time::Duration::as_secs` returns for `d`.
pub uninterp spec fn duration_secs(d: Duration) -> u64;

/// Calls `std::time::Duration::from_millis`; the result is named, and its
/// whole seconds are `ms / 1000`, as the documentation of `as_secs` gives.
#[verifier::external_body]
pub(crate) fn duration_from_millis(ms: u64) -> (d: Duration)
    ensures
        d == millis_duration(ms),
        duration_secs(d) == ms / 1000,
{
    Duration::from_millis(ms)
}

/// Calls `std::time::Duration::as_secs`: the whole seconds of `d`.
#[verifier::external_body]
pub(crate) fn duration_as_secs(d: &Duration) -> (s: u64)
    ensures
        s == duration_secs(*d),
{
    d.as_secs()
}

} // verus!
