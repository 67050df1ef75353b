//! The monotonic clock by which the age of a login attempt is measured.

use vstd::prelude::*;
use std::time::{Duration, Instant};

verus! {

/// `std::time::Instant`: a moment on the monotonic clock, of which nothing
/// is known.
#[verifier::external_type_specification]
#[verifier::external_body]
pub struct ExInstant(Instant);

/// `Instant::now`: the present moment. Nothing is known of it.
#[verifier::external_body]
pub(crate) fn present() -> Instant {
    Instant::now()
}

/// `Instant::elapsed`: the time that has passed since `start`. Nothing is
/// known of it.
#[verifier::external_body]
pub(crate) fn elapsed_since(start: &Instant) -> Duration {
    start.elapsed()
}

/// The whole nanoseconds that a span of time holds, as `Duration::as_nanos`
/// counts them.
pub uninterp spec fn span_nanos(span: Duration) -> u128;

/// `Duration::as_nanos`: the span in whole nanoseconds, which depends on
/// the span alone.
#[verifier::external_body]
pub(crate) fn nanos_of(span: &Duration) -> (nanos: u128)
    ensures
        nanos == span_nanos(*span),
{
    span.as_nanos()
}

} // verus!
