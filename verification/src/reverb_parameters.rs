//! The engine's default control-parameter set, in fixed point, as a host
//! would first present it.

use vstd::prelude::*;
use crate::qmath::{Q_HALF, Q_QUARTER, Q_TWO};
use crate::constants::MIN_PREDELAY;

verus! {

/// 40 in fixed point: the default room size.
pub const DEFAULT_SIZE: i64 = 42949672960;

/// 0.9 in fixed point: the default decay.
pub const DEFAULT_DECAY: i64 = 966367642;

#[derive(Clone, Copy, PartialEq, Eq, Structural)]
pub struct ReverbParameters {
    pub predelay: i64,
    pub size: i64,
    pub speed: i64,
    pub depth: i64,
    pub absorb: i64,
    pub decay: i64,
    pub tilt: i64,
    pub mix: i64,
}

impl Default for ReverbParameters {
    /// The documented defaults: 7 ms pre-delay, size 40, 2 Hz modulation at
    /// -0.25 depth, absorb 0.5, decay 0.9, flat tilt, half mix.
    fn default() -> (r: ReverbParameters)
        ensures
            r.predelay == MIN_PREDELAY,
            r.size == DEFAULT_SIZE,
            r.speed == Q_TWO,
            r.depth == -Q_QUARTER,
            r.absorb == Q_HALF,
            r.decay == DEFAULT_DECAY,
            r.tilt == 0,
            r.mix == Q_HALF,
    {
        ReverbParameters {
            predelay: MIN_PREDELAY,
            size: DEFAULT_SIZE,
            speed: Q_TWO,
            depth: -Q_QUARTER,
            absorb: Q_HALF,
            decay: DEFAULT_DECAY,
            tilt: 0,
            mix: Q_HALF,
        }
    }
}

} // verus!
