//! The overall deadline of a generation: every network step gets the time
//! that is left of it.
use vstd::prelude::*;

use crate::error::ImageError;
use std::time::{Duration, Instant};

verus! {

/// `std::time::Instant`, a point on the monotonic clock; opaque here.
#[verifier::external_type_specification]
#[verifier::external_body]
pub struct ExInstant(Instant);

/// Calls `Instant::now`.  Nothing is stated of the instant it returns.
#[verifier::external_body]
fn instant_now() -> Instant {
    Instant::now()
}

/// Calls `Instant::elapsed`.  Nothing is stated of the time that has
/// passed: it depends on the clock.
#[verifier::external_body]
fn instant_elapsed(start: &Instant) -> Duration {
    start.elapsed()
}

/// Calls `Duration::as_nanos`.  `Duration` is opaque here, so nothing is
/// stated of the number it returns.
#[verifier::external_body]
fn duration_as_nanos(d: &Duration) -> u128 {
    d.as_nanos()
}

/// A deadline `timeout_nanos` nanoseconds after `start`.
pub struct Deadline {
    pub start: Instant,
    pub timeout_nanos: u128,
}

impl Deadline {
    /// The deadline `timeout_nanos` nanoseconds from now.
    pub fn after(timeout_nanos: u128) -> (d: Deadline)
        ensures
            d.timeout_nanos == timeout_nanos,
    {
        Deadline { start: instant_now(), timeout_nanos }
    }
}

/// The time left, in nanoseconds, when `elapsed_nanos` of a timeout of
/// `timeout_nanos` have passed; an error once nothing is left.
pub fn remaining_after(timeout_nanos: u128, elapsed_nanos: u128) -> (r: Result<u128, ImageError>)
    ensures
        elapsed_nanos < timeout_nanos ==> r == Ok::<u128, ImageError>(
            (timeout_nanos - elapsed_nanos) as u128,
        ),
        elapsed_nanos >= timeout_nanos ==> r == Err::<u128, ImageError>(
            ImageError::DeadlineExceeded,
        ),
{
    if elapsed_nanos < timeout_nanos {
        Ok(timeout_nanos - elapsed_nanos)
    } else {
        Err(ImageError::DeadlineExceeded)
    }
}

/// The time left before `deadline`, in nanoseconds, read from the clock:
/// positive and at most the whole timeout, or an error once it has passed.
pub fn remaining(deadline: &Deadline) -> (r: Result<u128, ImageError>)
    ensures
        r matches Ok(n) ==> 0 < n <= deadline.timeout_nanos,
        r matches Err(e) ==> e == ImageError::DeadlineExceeded,
{
    let elapsed = instant_elapsed(&deadline.start);
    remaining_after(deadline.timeout_nanos, duration_as_nanos(&elapsed))
}

} // verus!
