//! Time: the length of a minute, and the monotonic clock of the standard
//! library.
//!
//! What the clock reads is not known before it is read, so nothing is stated
//! of these functions: code that reads the clock is verified for every value
//! that may come back.

use vstd::prelude::*;
use std::time::Duration;
use std::time::Instant;

verus! {

/// Seconds in one minute.
pub const SECONDS_PER_MINUTE: u64 = 60;

/// `std::time::Instant`: a reading of the monotonic clock, opaque here.
#[verifier::external_type_specification]
#[verifier::external_body]
pub struct ExInstant(Instant);

/// `Instant::now` gives the current reading of the clock. No property of the
/// reading is assumed.
pub assume_specification[ Instant::now ]() -> Instant;

/// `Instant::elapsed` gives the time that has passed since the reading was
/// taken, and a duration of zero for a reading that lies ahead of the clock.
/// No property of the duration is assumed.
pub assume_specification[ Instant::elapsed ](instant: &Instant) -> Duration;

/// `Duration::as_secs` gives the whole seconds of a duration. No property of
/// their number is assumed.
pub assume_specification[ Duration::as_secs ](duration: &Duration) -> u64;

} // verus!
