//! The monotonic clock that the frame status reads.

use vstd::prelude::*;

verus! {

#[verifier::external_type_specification]
#[verifier::external_body]
pub struct ExInstant(std::time::Instant);

/// Relies on `Instant::now`: a reading of the monotonic clock. Nothing is
/// promised of the value.
pub assume_specification[ std::time::Instant::now ]() -> std::time::Instant;

/// Relies on `Instant::elapsed`: the time since the reading. Nothing is
/// promised of the value.
pub assume_specification[ std::time::Instant::elapsed ](
    i: &std::time::Instant,
) -> core::time::Duration;

/// Relies on `Duration::as_micros`: the whole microseconds of a duration.
/// Durations are opaque here, so nothing is promised of the value.
pub assume_specification[ core::time::Duration::as_micros ](d: &core::time::Duration) -> u128;

} // verus!
