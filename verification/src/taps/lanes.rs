//! Four parallel delay-network lanes bundled as one value, so the mixing
//! matrix, DC blocker and absorption stage can act on all four lines at once.

use vstd::prelude::*;

verus! {

#[derive(Clone, Copy, PartialEq, Eq, Structural, Debug)]
pub struct Lanes {
    pub a: i64,
    pub b: i64,
    pub c: i64,
    pub d: i64,
}

impl Lanes {
    /// All four lanes silent.
    pub open spec fn is_zero(self) -> bool {
        self.a == 0 && self.b == 0 && self.c == 0 && self.d == 0
    }

    pub fn zero() -> (r: Lanes)
        ensures
            r.is_zero(),
    {
        Lanes { a: 0, b: 0, c: 0, d: 0 }
    }
}

} // verus!
