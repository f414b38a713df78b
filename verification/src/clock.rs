//! The monotonic clock that a queue reads.
//!
//! Nothing in this file is proved: it declares the clock of the standard
//! library and states nothing of what it reads.

use vstd::prelude::*;
use std::time::Instant;

verus! {

/// `std::time::Instant`, a point on the monotonic clock. Nothing is known
/// of what a value of it holds.
#[verifier::external_type_specification]
#[verifier::external_body]
pub struct ExInstant(Instant);

/// `Instant::now` reads the clock. Nothing is claimed of the reading.
pub assume_specification[ Instant::now ]() -> (now: Instant);

/// The nanoseconds that have passed since `origin`, taken from
/// `Instant::elapsed` and `Duration::as_nanos`. The reading depends on when
/// the call is made, so nothing is claimed of it: two calls may differ.
#[verifier::external_body]
pub(crate) fn nanos_since(origin: &Instant) -> (nanos: u128) {
    origin.elapsed().as_nanos()
}

} // verus!
