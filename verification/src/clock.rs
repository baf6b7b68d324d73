//! The monotonic clock: instants and elapsed whole milliseconds.

use vstd::prelude::*;

verus! {

/// Declares `std::time::Instant` so that timers and caches can hold one.
#[verifier::external_type_specification]
#[verifier::external_body]
pub struct ExInstant(std::time::Instant);

/// Calls `std::time::Instant::now`. The instant comes from the monotonic
/// clock, so nothing is claimed of it.
#[verifier::external_body]
pub(crate) fn instant_now() -> std::time::Instant {
    std::time::Instant::now()
}

/// Calls `std::time::Instant::elapsed`. The duration depends on the clock,
/// so nothing is claimed of it.
#[verifier::external_body]
pub(crate) fn elapsed_since(start: &std::time::Instant) -> std::time::Duration {
    start.elapsed()
}

/// Calls `std::time::Duration::as_millis`: the whole milliseconds of the
/// duration. The duration is opaque here, so nothing is claimed of the number.
#[verifier::external_body]
pub(crate) fn whole_millis(d: &std::time::Duration) -> u128 {
    d.as_millis()
}

} // verus!
