//! The monotonic clock of the machine.
//!
//! What the clock shows depends on when it is asked. Nothing is claimed of
//! a reading, and nothing in the library is proved from one: each function
//! that asks the clock hands the reading to a function that is verified for
//! every reading.

use vstd::prelude::*;
use std::time::{Duration, Instant};

verus! {

/// `std::time::Instant`: a point in time on the monotonic clock. Nothing is
/// known of a value of this type but that it can be handed back to the
/// clock.
#[verifier::external_type_specification]
#[verifier::external_body]
pub struct ExInstant(Instant);

/// `Instant::now` reads the clock. Nothing is claimed of the reading.
pub assume_specification[ Instant::now ]() -> (instant: Instant)
;

/// `Instant::elapsed` gives the time that has passed since the instant.
/// Nothing is claimed of it.
pub assume_specification[ Instant::elapsed ](instant: &Instant) -> (elapsed: Duration)
;

/// `Duration::as_nanos` gives a length of time as a count of nanoseconds.
/// Nothing is claimed of the count.
pub assume_specification[ Duration::as_nanos ](duration: &Duration) -> (nanos: u128)
;

} // verus!
