//! Reading the wall clock.
//!
//! The standard library's monotonic clock is the only source of time. What
//! it returns cannot be predicted, so nothing is claimed of a reading; the
//! rest of the crate is proved for every value that a reading may have.

use std::time::Duration;
use std::time::Instant;
use vstd::prelude::*;

verus! {

/// `std::time::Instant`, a reading of the monotonic system clock. Its
/// contents are not visible to proofs.
#[verifier::external_type_specification]
#[verifier::external_body]
pub struct ExInstant(Instant);

/// `Instant::now` reads the system clock. Nothing is claimed of the reading.
pub assume_specification[ Instant::now ]() -> (now: Instant);

/// `Instant::elapsed` gives the time that has passed since the instant was
/// taken. Nothing is claimed of the duration.
pub assume_specification[ Instant::elapsed ](start: &Instant) -> (elapsed: Duration);

/// `Duration::as_nanos` gives a duration in whole nanoseconds. Nothing is
/// claimed of the number.
pub assume_specification[ Duration::as_nanos ](duration: &Duration) -> (nanos: u128);

/// A count of nanoseconds as a `u64`: the count itself where it fits, and
/// `u64::MAX`, which stands for more than 584 years, where it does not.
pub fn saturating_nanos(nanos: u128) -> (clamped: u64)
    ensures
        clamped == (if nanos <= u64::MAX { nanos } else { u64::MAX as u128 }),
{
    if nanos <= u64::MAX as u128 {
        nanos as u64
    } else {
        u64::MAX
    }
}

/// The wall-clock time that has passed since `start`, in nanoseconds.
pub(crate) fn nanos_since(start: &Instant) -> u64 {
    saturating_nanos(start.elapsed().as_nanos())
}

} // verus!
