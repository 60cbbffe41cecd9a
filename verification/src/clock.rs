//! Monotonic time as a plain number.

use vstd::prelude::*;

verus! {

pub const NANOS_PER_SEC: u128 = 1_000_000_000;

/// The longest time that the clock can show.
pub open spec fn max_clock() -> int {
    u64::MAX * 1_000_000_000 + 999_999_999
}

/// `std::time::Instant`, carried and never looked into.
#[verifier::external_type_specification]
#[verifier::external_body]
pub struct ExInstant(std::time::Instant);

/// Calls `std::time::Instant::now`. Nothing is claimed of the result.
#[verifier::external_body]
fn instant_now() -> (r: std::time::Instant) {
    std::time::Instant::now()
}

/// Calls `std::time::Instant::elapsed` and gives the duration in nanoseconds.
/// All that is claimed is that it fits a `Duration`, which holds at most
/// `u64::MAX` seconds and 999 999 999 nanoseconds.
#[verifier::external_body]
fn nanos_since(start: &std::time::Instant) -> (r: u128)
    ensures
        r <= max_clock(),
{
    start.elapsed().as_nanos()
}

/// A stopwatch: nanoseconds since it was made.
pub struct Clock {
    start: std::time::Instant,
}

impl Clock {
    pub fn new() -> (r: Self) {
        Clock { start: instant_now() }
    }

    /// Nanoseconds since the clock was made. What it shows depends on when it
    /// is asked.
    pub fn now(&self) -> (r: u128)
        ensures
            r <= max_clock(),
    {
        nanos_since(&self.start)
    }
}

/// The clock can show all times of 64-bit seconds, and no more.
pub proof fn law_clock_range(seconds: u64, nanos: int)
    requires
        0 <= nanos < 1_000_000_000,
    ensures
        seconds * 1_000_000_000 + nanos <= max_clock(),
        max_clock() < 0x1_0000_0000_0000_0000 * 1_000_000_000,
        NANOS_PER_SEC == 1_000_000_000,
{
}

} // verus!
