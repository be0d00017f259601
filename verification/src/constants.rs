//! Global engine configuration constants, in fixed point where they are
//! parameter values (milliseconds or room-size units).

use vstd::prelude::*;

verus! {

/// Shortest pre-delay, 7 ms.
pub const MIN_PREDELAY: i64 = 7516192768;

/// Longest pre-delay, 500 ms.
pub const MAX_PREDELAY: i64 = 536870912000;

/// Smallest room size parameter, 1.
pub const MIN_SIZE: i64 = 1073741824;

/// Largest room size parameter, 500.
pub const MAX_SIZE: i64 = 536870912000;

/// Largest modulation depth, 8 ms of read-time excursion.
pub const MAX_DEPTH: i64 = 8589934592;

/// Highest supported sample rate in Hz; bounds every buffer allocation.
pub const MAX_SAMPLE_RATE: u32 = 192000;

} // verus!
