//! Reading the clocks. Nothing is stated of what they return.

use vstd::prelude::*;

verus! {

/// `std::time::Instant`, a point on the monotonic clock.
#[verifier::external_type_specification]
#[verifier::external_body]
pub struct ExInstant(std::time::Instant);

/// The current monotonic instant (`Instant::now`); nothing is stated of it.
#[verifier::external_body]
pub(crate) fn instant_now() -> std::time::Instant {
    std::time::Instant::now()
}

/// Whole milliseconds since `start` (`Instant::elapsed`, then `as_millis`
/// cut to 64 bits); nothing is stated of the value.
#[verifier::external_body]
pub(crate) fn elapsed_ms(start: &std::time::Instant) -> u64 {
    start.elapsed().as_millis() as u64
}

} // verus!
