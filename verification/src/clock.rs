//! Points in time and spans between them, in whole nanoseconds.

use vstd::prelude::*;

verus! {

/// A span of time, in nanoseconds.
pub type Duration = u128;

/// A point on a monotonic clock, in nanoseconds from a moment that the owner of the clock chose.
pub type Instant = u128;

} // verus!
