//! The monotonic clock that hash timing reads.

use vstd::prelude::*;

use std::time::{Duration, Instant};

verus! {

/// A point in time of the monotonic clock.
#[verifier::external_type_specification]
#[verifier::external_body]
pub struct ExInstant(Instant);

/// `std::time::Instant::now`. Nothing is claimed of the result.
#[verifier::external_body]
fn instant_now() -> Instant {
    Instant::now()
}

/// `std::time::Instant::elapsed`. Nothing is claimed of the result.
#[verifier::external_body]
fn instant_elapsed(start: &Instant) -> Duration {
    start.elapsed()
}

/// `std::time::Duration::as_micros`. Nothing is claimed of the result.
#[verifier::external_body]
fn duration_as_micros(d: &Duration) -> u128 {
    d.as_micros()
}

/// The current time, where timing is on; nothing otherwise.
pub fn start_if(on: bool) -> (start: Option<Instant>)
    ensures
        start is Some <==> on,
{
    if on {
        Some(instant_now())
    } else {
        None
    }
}

/// The microseconds since `start`, cut to their low 64 bits.
pub fn elapsed_us(start: &Instant) -> u64 {
    let d = instant_elapsed(start);
    let us = duration_as_micros(&d);
    us as u64
}

} // verus!
