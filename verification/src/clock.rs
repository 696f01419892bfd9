//! Reading the monotonic clock, to report how long an operation took.

use std::time::{Duration, Instant};
use vstd::prelude::*;

verus! {

/// A point in time of the monotonic clock (`std::time::Instant`).
#[verifier::external_type_specification]
#[verifier::external_body]
pub struct ExInstant(Instant);

/// Reads the monotonic clock (`std::time::Instant::now`). What it returns
/// rests on the time, so nothing is claimed of it.
#[verifier::external_body]
pub fn clock_now() -> (t: Instant) {
    Instant::now()
}

/// The time that has passed since `start` (`Instant::elapsed`). It rests on
/// the time, so nothing is claimed of it.
#[verifier::external_body]
fn elapsed_since(start: &Instant) -> (d: Duration) {
    start.elapsed()
}

/// The whole milliseconds of a span of time (`Duration::as_millis`). The
/// span is opaque here, so nothing is claimed of the number.
#[verifier::external_body]
fn whole_millis(d: &Duration) -> (ms: u128) {
    d.as_millis()
}

/// The whole milliseconds that have passed since `start`, cut to their low
/// 64 bits. The number rests on the time at which the clock is read, so no
/// contract pins it down: any `u64` is a possible outcome.
pub fn elapsed_millis(start: &Instant) -> (ms: u64) {
    let d = elapsed_since(start);
    let wide: u128 = whole_millis(&d);
    wide as u64
}

} // verus!
