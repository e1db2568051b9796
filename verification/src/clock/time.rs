//! The thin trusted boundary around the wall clock. Instants are opaque
//! values; the only thing read off them is an elapsed duration, immediately
//! flattened to a plain count of milliseconds so that all timing arithmetic
//! and its contracts live in verified code.
use core::time::Duration;
use std::time::Instant;
use vstd::prelude::*;

verus! {

/// `std::time::Instant` is opaque to the verifier: a moment on the monotonic
/// clock, only ever produced and consumed by the wrappers below.
#[verifier::external_type_specification]
#[verifier::external_body]
pub struct ExInstant(Instant);

/// Relies on `std::time::Instant::now`: the current moment. Nothing is
/// promised of its value.
#[verifier::external_body]
pub fn instant_now() -> Instant {
    Instant::now()
}

/// Relies on `std::time::Instant::elapsed`: the wall-clock time since the
/// instant. Nothing is promised of its value.
#[verifier::external_body]
pub fn instant_elapsed(since: &Instant) -> Duration {
    since.elapsed()
}

/// Relies on `core::time::Duration::as_millis`: the duration as a plain count
/// of whole milliseconds. Nothing is promised of its value; the verified
/// clock logic states what holds whatever number comes back.
#[verifier::external_body]
pub fn duration_as_millis(d: &Duration) -> u128 {
    d.as_millis()
}

} // verus!
