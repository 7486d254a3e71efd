//! The monotonic clock, read through trusted wrappers.

use std::time::Duration;
use std::time::Instant;
use vstd::prelude::*;

verus! {

/// `std::time::Instant`, a moment on the monotonic clock. Nothing inside it
/// is seen here; it is only carried from one clock call to the next.
#[verifier::external_type_specification]
#[verifier::external_body]
pub struct ExInstant(Instant);

/// Calls `std::time::Instant::now`. Nothing is claimed of the instant that
/// comes back.
#[verifier::external_body]
pub(crate) fn now() -> Instant {
    Instant::now()
}

/// Calls `std::time::Instant::saturating_duration_since`, which gives the time
/// from `earlier` to `later`, or zero when `earlier` is the later one. The
/// duration is opaque here, so nothing is claimed of it.
#[verifier::external_body]
pub(crate) fn duration_between(later: &Instant, earlier: &Instant) -> Duration {
    later.saturating_duration_since(*earlier)
}

/// Calls `std::time::Duration::as_nanos`. The duration is opaque here, so
/// nothing is claimed of the number.
#[verifier::external_body]
pub(crate) fn as_nanos(span: &Duration) -> u128 {
    span.as_nanos()
}

/// Nanoseconds that have passed on the monotonic clock since `origin`.
pub(crate) fn nanos_since(origin: &Instant) -> u128 {
    let current = now();
    let span = duration_between(&current, origin);
    as_nanos(&span)
}

} // verus!
