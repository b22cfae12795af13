//! The integer sum, with overflow reported rather than wrapped.

use vstd::prelude::*;

verus! {

/// Why a sum could not be returned.
#[derive(Clone, Copy, Debug, PartialEq, Eq, Structural)]
pub enum SumError {
    /// The mathematical sum does not fit in a signed 64-bit integer.
    Overflow,
}

/// Whether the integer `n` can be held in an `i64`.
pub open spec fn fits_i64(n: int) -> bool {
    i64::MIN <= n <= i64::MAX
}

/// The sum of `a` and `b`.
///
/// Returns the exact sum whenever it fits in an `i64`. When it does not, the
/// call fails with [`SumError::Overflow`]: the sum is never wrapped or clamped.
pub fn sum_as_i64(a: i64, b: i64) -> (r: Result<i64, SumError>)
    ensures
        fits_i64(a + b) ==> r == Ok::<i64, SumError>((a + b) as i64),
        !fits_i64(a + b) ==> r == Err::<i64, SumError>(SumError::Overflow),
{
    match a.checked_add(b) {
        Some(s) => Ok(s),
        None => Err(SumError::Overflow),
    }
}

} // verus!
