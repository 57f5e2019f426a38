//! The timing-interval primitive: an opaque monotonic timestamp that can be
//! queried, any number of times, for the whole microseconds elapsed since it
//! was captured.

use vstd::prelude::*;

verus! {

/// Declares `std::time::Instant`, the standard library's monotonic clock
/// reading, so that a captured instant can be held in a field.
#[verifier::external_type_specification]
#[verifier::external_body]
pub struct ExInstant(std::time::Instant);

/// Relies on `std::time::Instant::now`: an opaque reading of a monotonic
/// clock unaffected by wall-clock adjustments. Nothing can be promised of
/// the reading itself.
pub assume_specification[ std::time::Instant::now ]() -> std::time::Instant;

/// Relies on `std::time::Instant::elapsed`: the amount of time from this
/// instant to now, never negative because the clock is monotonic. Nothing
/// more is promised: the result depends on the clock at the moment of the
/// call.
pub assume_specification[ std::time::Instant::elapsed ](
    instant: &std::time::Instant,
) -> core::time::Duration;

/// Relies on `core::time::Duration::as_micros`: the whole microseconds
/// contained in the duration, fractional microseconds discarded.
pub assume_specification[ core::time::Duration::as_micros ](
    duration: &core::time::Duration,
) -> u128;

/// An opaque monotonic timestamp.
///
/// Captured by [`TimeHandle::now`]; not tied to any particular timer; owns no
/// resource and may be queried repeatedly, each query reporting the interval
/// since the original capture.
#[derive(Clone, Copy)]
pub struct TimeHandle {
    instant: std::time::Instant,
}

impl TimeHandle {
    /// Capture the current instant of the monotonic clock.
    pub fn now() -> TimeHandle {
        TimeHandle { instant: std::time::Instant::now() }
    }

    /// The whole microseconds elapsed between the captured instant and now.
    /// The value depends on the clock at the moment of the call, so nothing
    /// is promised of it beyond its type.
    pub fn elapsed_us(&self) -> u64 {
        let micros = self.instant.elapsed().as_micros();
        #[verifier::truncate]
        (micros as u64)
    }
}

} // verus!
