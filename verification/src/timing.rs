//! Timing a piece of work on the monotonic clock.

use std::time::{Duration, Instant};
use vstd::prelude::*;

verus! {

/// A reading of the monotonic clock. Nothing inside it is visible to proofs.
#[verifier::external_type_specification]
#[verifier::external_body]
pub struct ExInstant(Instant);

/// `Instant::now` reads the monotonic clock. The reading differs from call to
/// call, so nothing is claimed of it. On a platform whose monotonic clock
/// cannot be read the call does not return a value: it ends the program
/// rather than fall back to another clock.
pub assume_specification[ Instant::now ]() -> (t: Instant);

/// `Instant::elapsed` gives the time that has passed on the monotonic clock
/// since `start` was read. It depends on when it is called, so nothing is
/// claimed of it.
pub assume_specification[ Instant::elapsed ](start: &Instant) -> (d: Duration);

/// `Duration::as_nanos` gives the whole length of `d` in nanoseconds. A
/// `Duration` is opaque here, so nothing is claimed of the count beyond its
/// type.
pub assume_specification[ Duration::as_nanos ](d: &Duration) -> (n: u128);

/// Runs `work` once and returns what it produced, together with the time it
/// took in nanoseconds.
///
/// The clock is read immediately before `work` starts and immediately after
/// it returns, so the interval covers the work and nothing else: whatever the
/// caller does to prepare the input or to pass the result on is not counted.
/// The clock is monotonic; it is never the adjustable wall clock.
///
/// The first component is the value that this run of `work` returned. The
/// second is an unsigned count and so never negative; its size depends on the
/// machine and the moment, and no more is promised of it.
pub fn with_timing<T, F: FnOnce() -> T>(work: F) -> (out: (T, u128))
    requires
        work.requires(()),
    ensures
        work.ensures((), out.0),
        out.1 >= 0,
{
    let start = Instant::now();
    let value = work();
    let elapsed = start.elapsed();
    (value, elapsed.as_nanos())
}

} // verus!
