//! Trusted declarations for the system clock.
//!
//! The factory's only external dependency is reading elapsed time from
//! `std::time`. vstd gives those items no specification, so they are declared
//! here. Nothing is assumed about the values the clock reports: every
//! function that consumes a clock reading is verified for all possible
//! readings.

use vstd::prelude::*;

verus! {

/// Declares `std::time::SystemTime` so that it can stand in signatures and
/// fields. Values of it are opaque to the verifier.
#[verifier::external_type_specification]
#[verifier::external_body]
pub struct ExSystemTime(std::time::SystemTime);

/// Declares `std::time::SystemTimeError`, the error a failed clock
/// comparison reports; values of it are opaque to the verifier.
#[verifier::external_type_specification]
#[verifier::external_body]
pub struct ExSystemTimeError(std::time::SystemTimeError);

/// Relies on `std::time::SystemTime::now`: the current clock reading.
/// Nothing is promised of the value; the clock chooses it.
pub assume_specification[ std::time::SystemTime::now ]() -> (r: std::time::SystemTime);

/// Relies on `std::time::SystemTime::duration_since`: the span from
/// `earlier` to `t`, or the clock's error value when `earlier` is later
/// than `t`. Both outcomes are opaque; callers handle each.
pub assume_specification[ std::time::SystemTime::duration_since ](
    t: &std::time::SystemTime,
    earlier: std::time::SystemTime,
) -> (r: Result<std::time::Duration, std::time::SystemTimeError>);

/// Relies on `std::time::Duration::as_millis`: the span expressed as whole
/// milliseconds. Nothing is promised of the value.
pub assume_specification[ std::time::Duration::as_millis ](
    d: &std::time::Duration,
) -> (r: u128);

} // verus!
