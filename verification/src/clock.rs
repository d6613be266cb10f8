//! The monotonic clock, taken on trust from std.
//!
//! The aggregator stamps every sample with the time elapsed since its
//! creation. Nothing can be promised about a clock reading, so the trusted
//! items below carry no `ensures`: the aggregator itself keeps its sample
//! times in order by never stamping a sample earlier than the previous one.

use vstd::prelude::*;

verus! {

/// `std::time::Instant` as an opaque type, so that the aggregator can hold
/// the instant of its creation and later readings of the clock.
#[verifier::external_type_specification]
#[verifier::external_body]
pub struct ExInstant(std::time::Instant);

/// Relies on std's `Instant::now`: a reading of the monotonic clock.
/// Nothing is assumed about the value read.
pub assume_specification[ std::time::Instant::now ]() -> (r: std::time::Instant);

/// Relies on std's `Instant::duration_since`, documented to return the time
/// elapsed from `earlier` to `self`, or a zero duration if `earlier` is
/// later than `self`; it does not panic.
pub assume_specification[ std::time::Instant::duration_since ](
    now: &std::time::Instant,
    earlier: std::time::Instant,
) -> (d: core::time::Duration);

/// Relies on std's `Duration::as_micros`: the whole number of microseconds
/// that the duration holds. The duration itself is opaque here, so nothing
/// more is assumed of the value.
pub assume_specification[ core::time::Duration::as_micros ](
    d: &core::time::Duration,
) -> (r: u128);

} // verus!
