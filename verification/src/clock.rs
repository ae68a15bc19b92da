//! Readings of the monotonic clock.

use std::time::Instant;
use vstd::prelude::*;

verus! {

#[verifier::external_type_specification]
#[verifier::external_body]
pub struct ExInstant(Instant);

/// Calls `Instant::now`. Nothing is promised of the reading.
#[verifier::external_body]
pub(crate) fn clock_origin() -> Instant {
    Instant::now()
}

/// Calls `Instant::elapsed` on `origin` and converts the duration to whole
/// nanoseconds (`Duration::as_nanos`). Nothing is promised of the reading.
#[verifier::external_body]
pub(crate) fn nanos_since(origin: &Instant) -> u128 {
    origin.elapsed().as_nanos()
}

} // verus!
