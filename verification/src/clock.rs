//! Trusted access to the monotonic clock.
//!
//! A vehicle records the instant at which it last changed speed while
//! running.  Nothing is promised of the values read here: how much time
//! has passed depends on when each call is made, so every caller is
//! verified for every possible reading.

use vstd::prelude::*;

verus! {

/// `std::time::Instant`, treated as an opaque moment on the monotonic
/// clock.
#[verifier::external_type_specification]
#[verifier::external_body]
pub struct ExInstant(std::time::Instant);

/// Relies on `std::time::Instant::now`: a reading of the monotonic
/// clock.  The value depends on when the call is made, so nothing is
/// promised of it.
#[verifier::external_body]
pub(crate) fn instant_now() -> std::time::Instant {
    std::time::Instant::now()
}

/// Relies on `std::time::Instant::elapsed`: the time between `earlier`
/// and now, saturating at zero.  The value depends on when the call is
/// made, so nothing is promised of it.
#[verifier::external_body]
pub(crate) fn instant_elapsed(earlier: &std::time::Instant) -> core::time::Duration {
    earlier.elapsed()
}

/// Relies on `core::time::Duration::as_secs`: the count of whole
/// seconds in the duration, the fractional part dropped.  The duration
/// itself is opaque here, so nothing more is stated of the count.
#[verifier::external_body]
pub(crate) fn duration_whole_secs(d: core::time::Duration) -> u64 {
    d.as_secs()
}

} // verus!
