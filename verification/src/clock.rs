//! Trusted boundary around the outside wall clock.

use vstd::prelude::*;

verus! {

/// Relies on time::precise_time_ns: the current value of a high-resolution
/// counter, in nanoseconds since an unspecified epoch. Nothing is assumed of
/// the value; callers state what holds of every outcome.
#[verifier::external_body]
pub(crate) fn now_ns() -> u64 {
    time::precise_time_ns()
}

} // verus!
