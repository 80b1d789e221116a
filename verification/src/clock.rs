//! Trusted access to the monotonic clock.
//!
//! A token bucket measures elapsed time on the monotonic clock — never the
//! wall clock, so that clock adjustments cannot skew refills.  Everything
//! time-dependent in this crate flows through the three items below; the
//! verified refill arithmetic takes the reading as a plain number of
//! microseconds and is proved for every possible value of it.

use std::time::Instant;
use vstd::prelude::*;

verus! {

/// `std::time::Instant`, declared so a bucket can remember the clock origin
/// its refill timestamps are measured from.
#[verifier::external_type_specification]
#[verifier::external_body]
pub struct ExInstant(Instant);

/// Relies on `std::time::Instant::now`: a reading of the monotonic clock.
/// Nothing is assumed of the value.
#[verifier::external_body]
pub(crate) fn instant_now() -> (r: Instant) {
    Instant::now()
}

/// Relies on `std::time::Instant::elapsed`: the time from `origin` to the
/// monotonic clock's reading now, never negative.  The value depends on the
/// clock, so nothing is assumed of it.
#[verifier::external_body]
pub(crate) fn elapsed_since(origin: &Instant) -> (r: core::time::Duration) {
    origin.elapsed()
}

/// Relies on `core::time::Duration::as_micros`: the whole microseconds of
/// `d`, saturated to `u64::MAX`.  No caller needs a bound on the value, so
/// nothing is assumed of it.
#[verifier::external_body]
pub(crate) fn duration_to_micros(d: &core::time::Duration) -> (r: u64) {
    u64::try_from(d.as_micros()).unwrap_or(u64::MAX)
}

} // verus!
