//! Readings of the wall clock and of the monotonic clock.
use std::time::{Duration, Instant};
use vstd::prelude::*;

verus! {

broadcast use vstd::string::group_string_axioms;

/// `std::time::Instant`, a reading of the monotonic clock.
#[verifier::external_type_specification]
#[verifier::external_body]
pub struct ExInstant(Instant);

/// The time that `Instant::duration_since` reports from `earlier` to `later`.
pub uninterp spec fn elapsed(later: Instant, earlier: Instant) -> Duration;

/// The whole seconds that `Duration::as_secs` reports.
pub uninterp spec fn whole_secs(duration: Duration) -> u64;

/// `Instant::now` reads the monotonic clock; nothing is claimed of the reading.
pub assume_specification[ Instant::now ]() -> (now: Instant)
;

/// `Instant::duration_since` depends on the two readings alone.
pub assume_specification[ Instant::duration_since ](later: &Instant, earlier: Instant) -> (d: Duration)
    ensures
        d == elapsed(*later, earlier),
;

/// `Duration::as_secs` drops the fraction of a second; it depends on the
/// duration alone.
pub assume_specification[ Duration::as_secs ](duration: &Duration) -> (secs: u64)
    ensures
        secs == whole_secs(*duration),
;

/// The current time as an RFC 3339 string in UTC.
///
/// Calls `chrono::Utc::now().to_rfc3339()`. Claimed of every reading: date and
/// time to the second take at least nineteen characters and the offset `+00:00`
/// follows at the end.
#[verifier::external_body]
fn utc_rfc3339() -> (iso: String)
    ensures
        iso@.len() >= 25,
        iso@.subrange(iso@.len() - 6, iso@.len() as int) == "+00:00"@,
{
    chrono::Utc::now().to_rfc3339()
}

/// One reading of both clocks: the wall clock for what is shown and stored,
/// the monotonic clock for ages.
pub struct Clock {
    pub iso: String,
    pub at: Instant,
}

impl Clock {
    /// Reads both clocks.
    pub fn read() -> (clock: Clock)
        ensures
            clock.iso@.len() >= 25,
            clock.iso@.subrange(clock.iso@.len() - 6, clock.iso@.len() as int) == "+00:00"@,
    {
        Clock { iso: utc_rfc3339(), at: Instant::now() }
    }
}

/// Whole seconds from `earlier` to `later`.
pub open spec fn age_secs(later: Instant, earlier: Instant) -> u64 {
    whole_secs(elapsed(later, earlier))
}

} // verus!
