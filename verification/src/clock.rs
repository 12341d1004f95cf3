//! The monotonic clock, behind trusted declarations.
//!
//! A clock reading depends on when it is taken, so nothing is stated about
//! the values: every caller's contract holds whatever the clock returns.
use vstd::prelude::*;

verus! {

/// `std::time::Instant` carried through verified code as an opaque value.
#[verifier::external_type_specification]
#[verifier::external_body]
pub struct ExInstant(std::time::Instant);

/// Relies on `std::time::Instant::now`: an opaque reading of the monotonic
/// clock.
pub assume_specification[ std::time::Instant::now ]() -> std::time::Instant;

/// Relies on `std::time::Instant::elapsed`: the time since the reading was
/// taken, never negative, as an opaque `Duration`.
pub assume_specification[ std::time::Instant::elapsed ](
    start: &std::time::Instant,
) -> std::time::Duration;

/// Relies on `std::time::Duration::as_nanos`: the duration in whole
/// nanoseconds.
pub assume_specification[ std::time::Duration::as_nanos ](
    d: &std::time::Duration,
) -> u128;

} // verus!
