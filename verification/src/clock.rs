//! The clock: monotonic millisecond readings for position anchoring.
//!
//! All tracker logic takes clock readings as plain `u64` milliseconds, so
//! tests can drive it with a deterministic clock. This module supplies
//! the real readings: milliseconds elapsed since a fixed epoch.

use vstd::prelude::*;

verus! {

#[verifier::external_type_specification]
#[verifier::external_body]
pub struct ExInstant(std::time::Instant);

/// Relies on std::time::Instant::now: an opaque reading of the monotonic
/// clock. Nothing can be promised of its value.
#[verifier::external_body]
fn instant_now() -> std::time::Instant {
    std::time::Instant::now()
}

/// Relies on std::time::Instant::elapsed: the time since `earlier`, which
/// never panics. Nothing can be promised of its value.
#[verifier::external_body]
fn elapsed_since(earlier: &std::time::Instant) -> std::time::Duration {
    earlier.elapsed()
}

/// Relies on std::time::Duration::as_millis: the duration in whole
/// milliseconds. Nothing can be promised of its value, the duration
/// being opaque.
#[verifier::external_body]
fn duration_millis(duration: &std::time::Duration) -> u128 {
    duration.as_millis()
}

/// A monotonic clock: hands out non-decreasing millisecond readings,
/// counted from the moment the clock was created.
pub struct MonotonicClock {
    epoch: std::time::Instant,
}

impl MonotonicClock {
    /// A clock whose readings start near zero.
    pub fn new() -> MonotonicClock {
        MonotonicClock { epoch: instant_now() }
    }

    /// Milliseconds elapsed since the clock was created, saturating at
    /// the largest representable reading.
    pub fn now_ms(&self) -> u64 {
        let millis = duration_millis(&elapsed_since(&self.epoch));
        if millis > u64::MAX as u128 {
            u64::MAX
        } else {
            millis as u64
        }
    }
}

} // verus!
