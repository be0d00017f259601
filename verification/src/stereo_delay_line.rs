//! A pair of identically sized delay lines, one per stereo channel.

use vstd::prelude::*;
use crate::delay_line::{DelayLine, MAX_CAPACITY, read_s, write_s};
use crate::qmath::SCALE;

verus! {

pub struct StereoDelayLine {
    left: DelayLine,
    right: DelayLine,
}

impl StereoDelayLine {
    pub closed spec fn wf(self) -> bool {
        &&& self.left.wf()
        &&& self.right.wf()
        &&& self.left.view().len() == self.right.view().len()
        &&& self.left.spr() == self.right.spr()
    }

    /// Age-ordered view of the left channel.
    pub closed spec fn view_left(self) -> Seq<i64> {
        self.left.view()
    }

    /// Age-ordered view of the right channel.
    pub closed spec fn view_right(self) -> Seq<i64> {
        self.right.view()
    }

    /// Samples per millisecond, in fixed point.
    pub closed spec fn spr(self) -> i64 {
        self.left.spr()
    }

    /// Both channels of a well-formed stereo line have the same, bounded
    /// capacity.
    pub proof fn lemma_wf_len(self)
        requires
            self.wf(),
        ensures
            2 <= self.view_left().len() <= MAX_CAPACITY,
            self.view_right().len() == self.view_left().len(),
            self.spr() > 0,
    {
        self.left.lemma_wf_len();
        self.right.lemma_wf_len();
    }

    pub fn new(length: usize, sample_rate: u32) -> (r: StereoDelayLine)
        requires
            1 <= sample_rate,
            length <= MAX_CAPACITY,
        ensures
            r.wf(),
            r.view_left().len() == if length < 2 { 2int } else { length as int },
            r.view_right().len() == r.view_left().len(),
            forall|k: int| 0 <= k < r.view_left().len() ==> r.view_left()[k] == 0i64,
            forall|k: int| 0 <= k < r.view_right().len() ==> r.view_right()[k] == 0i64,
            r.spr() == (sample_rate as int) * (SCALE as int) / 1000,
    {
        StereoDelayLine {
            left: DelayLine::new(length, sample_rate),
            right: DelayLine::new(length, sample_rate),
        }
    }

    /// Stores a stereo sample; both channels age together.
    pub fn write(&mut self, x: (i64, i64))
        requires
            old(self).wf(),
        ensures
            final(self).wf(),
            final(self).spr() == old(self).spr(),
            final(self).view_left().len() == old(self).view_left().len(),
            final(self).view_left() == write_s(old(self).view_left(), x.0),
            final(self).view_right() == write_s(old(self).view_right(), x.1),
    {
        self.left.write(x.0);
        self.right.write(x.1);
    }

    /// Interpolated read of both channels at `time` milliseconds.
    pub fn read(&self, time: i64) -> (r: (i64, i64))
        requires
            self.wf(),
        ensures
            r.0 == read_s(self.view_left(), self.spr(), time),
            r.1 == read_s(self.view_right(), self.spr(), time),
    {
        (self.left.read(time), self.right.read(time))
    }
}

} // verus!
