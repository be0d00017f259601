//! Fixed-capacity circular sample buffer with fractional (interpolated) read
//! and single-sample write.
//!
//! The buffer is modelled by an age-ordered view: `view()[k]` is the sample
//! written `k` calls to `write` ago (the cells start out zero). A read
//! addresses a time in milliseconds, converted to a fractional sample offset
//! behind the write cursor and linearly interpolated; the offset is clamped to
//! the capacity, so reads are total.

use vstd::prelude::*;
use crate::qmath::{
    SCALE, q_mul, q_mul_s, q_add, q_add_s, q_sub, q_sub_s, q_clamp, q_clamp_s, q_int_part,
    q_frac,
};

verus! {

/// Largest buffer capacity in samples; keeps all offset arithmetic in range.
pub const MAX_CAPACITY: usize = 268435456;

pub struct DelayLine {
    buf: Vec<i64>,
    cursor: usize,
    samples_per_ms: i64,
}

/// The buffer cell that holds the sample of age `k` when the next write goes
/// to `cursor`.
pub open spec fn age_index(cursor: int, k: int, n: int) -> int {
    (cursor - 1 - k) % n
}

/// Euclidean remainder of an almost-reduced index, written without `%`.
pub proof fn lemma_wrap_index(t: int, n: int)
    requires
        n > 0,
        -n <= t < n,
    ensures
        t % n == if t >= 0 { t } else { t + n },
{
    if t >= 0 {
        vstd::arithmetic::div_mod::lemma_small_mod(t as nat, n as nat);
    } else {
        vstd::arithmetic::div_mod::lemma_mod_add_multiples_vanish(t, n);
        vstd::arithmetic::div_mod::lemma_small_mod((t + n) as nat, n as nat);
    }
}

/// The age-ordered view after one write: the new sample in front, the oldest
/// cell forgotten.
pub open spec fn write_s(v: Seq<i64>, x: i64) -> Seq<i64> {
    seq![x] + v.drop_last()
}

/// Interpolated read of the age-ordered view `v` at `time` milliseconds,
/// with `spr` samples per millisecond: the fractional sample offset is
/// clamped to the capacity, then linearly interpolated between the two
/// nearest cells.
#[verifier::opaque]
pub open spec fn read_s(v: Seq<i64>, spr: i64, time: i64) -> i64 {
    let max_off = (v.len() - 2) * (SCALE as int);
    let off = q_clamp_s(q_mul_s(time, spr), 0, max_off as i64);
    let k = (off as int) / (SCALE as int);
    let f = ((off as int) % (SCALE as int)) as i64;
    q_add_s(v[k], q_mul_s(f, q_sub_s(v[k + 1], v[k])))
}

impl DelayLine {
    /// Structural invariant: at least two cells (one pair to interpolate
    /// between), a bounded capacity, the cursor inside the buffer, and a
    /// positive sample-rate factor.
    pub closed spec fn wf(self) -> bool {
        &&& 2 <= self.buf@.len() <= MAX_CAPACITY
        &&& self.cursor < self.buf@.len()
        &&& 0 < self.samples_per_ms
    }

    /// The samples by age: entry `k` was written `k` writes ago.
    pub closed spec fn view(self) -> Seq<i64> {
        Seq::new(
            self.buf@.len(),
            |k: int| self.buf@[age_index(self.cursor as int, k, self.buf@.len() as int)],
        )
    }

    /// Samples per millisecond, in fixed point.
    pub closed spec fn spr(self) -> i64 {
        self.samples_per_ms
    }

    /// A buffer of `length` zeroed cells (at least two) for the given sample
    /// rate.
    pub fn new(length: usize, sample_rate: u32) -> (r: DelayLine)
        requires
            1 <= sample_rate,
            length <= MAX_CAPACITY,
        ensures
            r.wf(),
            r.view().len() == if length < 2 { 2int } else { length as int },
            forall|k: int| 0 <= k < r.view().len() ==> r.view()[k] == 0i64,
            r.spr() == (sample_rate as int) * (SCALE as int) / 1000,
    {
        let n: usize = if length < 2 { 2 } else { length };
        let mut buf: Vec<i64> = Vec::new();
        while buf.len() < n
            invariant
                buf@.len() <= n,
                forall|k: int| 0 <= k < buf@.len() ==> buf@[k] == 0i64,
            decreases n - buf.len(),
        {
            buf.push(0);
        }
        proof {
            assert((sample_rate as int) * (SCALE as int) <= 0xffffffff * 0x40000000)
                by (nonlinear_arith)
                requires 1 <= sample_rate as int <= 0xffffffff,
            ;
            assert((sample_rate as int) * (SCALE as int) >= SCALE as int)
                by (nonlinear_arith)
                requires 1 <= sample_rate as int,
            ;
            vstd::arithmetic::div_mod::lemma_div_is_ordered(
                SCALE as int,
                (sample_rate as int) * (SCALE as int),
                1000,
            );
        }
        let spr_u: u64 = (sample_rate as u64) * (SCALE as u64) / 1000;
        DelayLine { buf, cursor: 0, samples_per_ms: spr_u as i64 }
    }

    /// A well-formed delay line has between two and `MAX_CAPACITY` cells.
    pub proof fn lemma_wf_len(self)
        requires
            self.wf(),
        ensures
            2 <= self.view().len() <= MAX_CAPACITY,
            self.spr() > 0,
    {
    }

    /// Number of cells.
    pub fn len(&self) -> (r: usize)
        ensures
            r == self.view().len(),
    {
        self.buf.len()
    }

    /// Stores `x` at the cursor and advances it: `x` becomes the age-0
    /// sample, every other sample ages by one.
    pub fn write(&mut self, x: i64)
        requires
            old(self).wf(),
        ensures
            final(self).wf(),
            final(self).spr() == old(self).spr(),
            final(self).view().len() == old(self).view().len(),
            final(self).view() == write_s(old(self).view(), x),
    {
        let n = self.buf.len();
        let ghost old_view = self.view();
        let ghost c = self.cursor as int;
        self.buf.set(self.cursor, x);
        self.cursor = if self.cursor + 1 == n { 0 } else { self.cursor + 1 };
        proof {
            let nn = n as int;
            let c2 = self.cursor as int;
            assert forall|k: int| 0 <= k < nn implies self.view()[k] == write_s(
                old_view,
                x,
            )[k] by {
                lemma_wrap_index(c2 - 1 - k, nn);
                if k == 0 {
                    assert(age_index(c2, 0, nn) == c);
                } else {
                    lemma_wrap_index(c - 1 - (k - 1), nn);
                    assert(age_index(c2, k, nn) == age_index(c, k - 1, nn));
                    assert(age_index(c, k - 1, nn) != c);
                }
            }
            assert(self.view() =~= write_s(old_view, x));
        }
    }

    /// Interpolated read at `time` milliseconds behind the cursor, clamped to
    /// the capacity.
    pub fn read(&self, time: i64) -> (r: i64)
        requires
            self.wf(),
        ensures
            r == read_s(self.view(), self.spr(), time),
    {
        proof {
            reveal(read_s);
        }
        let n = self.buf.len();
        let off0 = q_mul(time, self.samples_per_ms);
        let max_off: i64 = ((n - 2) as i64) * SCALE;
        proof {
            assert(((n - 2) as int) * (SCALE as int) <= 0x10000000 * 0x40000000)
                by (nonlinear_arith)
                requires 0 <= (n - 2) as int <= 0x10000000,
            ;
            assert(((n - 2) as int) * (SCALE as int) >= 0) by (nonlinear_arith)
                requires 0 <= (n - 2) as int,
            ;
        }
        let off = q_clamp(off0, 0, max_off);
        let k64 = q_int_part(off);
        proof {
            vstd::arithmetic::div_mod::lemma_div_is_ordered(
                off as int,
                ((n - 2) as int) * (SCALE as int),
                SCALE as int,
            );
            vstd::arithmetic::div_mod::lemma_div_by_multiple((n - 2) as int, SCALE as int);
        }
        let k = k64 as usize;
        let f = q_frac(off);
        let i0 = if self.cursor > k {
            self.cursor - 1 - k
        } else {
            self.cursor + n - 1 - k
        };
        let i1 = if self.cursor > k + 1 {
            self.cursor - 2 - k
        } else {
            self.cursor + n - 2 - k
        };
        proof {
            lemma_wrap_index(self.cursor as int - 1 - k, n as int);
            lemma_wrap_index(self.cursor as int - 2 - k, n as int);
        }
        let a = self.buf[i0];
        let b = self.buf[i1];
        q_add(a, q_mul(f, q_sub(b, a)))
    }
}

/// A buffer that holds only silence.
pub open spec fn all_zero(v: Seq<i64>) -> bool {
    forall|k: int| 0 <= k < v.len() ==> v[k] == 0i64
}

/// Reading a silent buffer yields silence, whatever the requested time.
pub proof fn lemma_read_zero(v: Seq<i64>, spr: i64, time: i64)
    requires
        2 <= v.len() <= MAX_CAPACITY,
        all_zero(v),
    ensures
        read_s(v, spr, time) == 0i64,
{
    reveal(read_s);
    let max_off = (v.len() - 2) * (SCALE as int);
    assert(0 <= (v.len() - 2) * (SCALE as int) <= 0x10000000 * 0x40000000)
        by (nonlinear_arith)
        requires 0 <= v.len() - 2 <= 0x10000000, SCALE as int == 0x40000000,
    ;
    let off = q_clamp_s(q_mul_s(time, spr), 0, max_off as i64);
    let k = (off as int) / (SCALE as int);
    vstd::arithmetic::div_mod::lemma_div_pos_is_pos(off as int, SCALE as int);
    vstd::arithmetic::div_mod::lemma_div_is_ordered(off as int, max_off, SCALE as int);
    vstd::arithmetic::div_mod::lemma_div_by_multiple((v.len() - 2) as int, SCALE as int);
    assert(0 <= k <= v.len() - 2);
    assert(v[k] == 0i64);
    assert(v[k + 1] == 0i64);
    let f = ((off as int) % (SCALE as int)) as i64;
    assert(q_sub_s(v[k + 1], v[k]) == 0i64);
    assert((f as int) * 0 == 0) by (nonlinear_arith);
    assert(q_mul_s(f, 0i64) == 0i64);
    assert(q_add_s(0i64, 0i64) == 0i64);
}

/// Writing silence into a silent buffer leaves it silent.
pub proof fn lemma_write_zero(v: Seq<i64>, x: i64)
    requires
        1 <= v.len(),
        all_zero(v),
        x == 0i64,
    ensures
        all_zero(write_s(v, x)),
        write_s(v, x).len() == v.len(),
{
    assert forall|k: int| 0 <= k < write_s(v, x).len() implies write_s(v, x)[k] == 0i64 by {
        if k > 0 {
            assert(v.drop_last()[k - 1] == v[k - 1]);
        }
    }
}

/// A buffer of `sr * window_ms / 1000 + 4` cells at `sr * SCALE / 1000`
/// samples per millisecond covers every read of up to `window_ms`
/// milliseconds: the fractional sample offset stays at least two cells short
/// of the capacity, so such reads are never clamped.
pub proof fn lemma_window_within_capacity(sr: int, len: int, spr: i64, time: i64, window_ms: int)
    requires
        1 <= sr,
        0 < window_ms,
        spr == sr * (SCALE as int) / 1000,
        len >= sr * window_ms / 1000 + 4,
        0 <= time <= window_ms * (SCALE as int),
    ensures
        0 <= q_mul_s(time, spr),
        q_mul_s(time, spr) <= (len - 2) * (SCALE as int),
{
    let s = SCALE as int;
    vstd::arithmetic::div_mod::lemma_div_pos_is_pos(sr * s, 1000);
    assert(sr * s >= 0) by (nonlinear_arith)
        requires sr >= 1, s > 0;
    assert(time * spr >= 0) by (nonlinear_arith)
        requires time >= 0, spr >= 0;
    vstd::arithmetic::div_mod::lemma_div_pos_is_pos(time * spr, s);
    // The offset is monotone in the time: time * spr / S <= W * spr.
    vstd::arithmetic::mul::lemma_mul_inequality(time as int, window_ms * s, spr as int);
    vstd::arithmetic::div_mod::lemma_div_is_ordered(
        (time as int) * (spr as int),
        (window_ms * s) * (spr as int),
        s,
    );
    assert((window_ms * s) * (spr as int) == s * (window_ms * (spr as int)))
        by (nonlinear_arith);
    vstd::arithmetic::div_mod::lemma_div_multiples_vanish(window_ms * (spr as int), s);
    // 1000 * spr <= sr * S, by the division's remainder.
    vstd::arithmetic::div_mod::lemma_fundamental_div_mod(sr * s, 1000);
    vstd::arithmetic::div_mod::lemma_mod_division_less_than_divisor(sr * s, 1000);
    assert(1000 * (spr as int) <= sr * s);
    // sr * W - 999 <= 1000 * (sr * W / 1000), likewise.
    vstd::arithmetic::div_mod::lemma_fundamental_div_mod(sr * window_ms, 1000);
    vstd::arithmetic::div_mod::lemma_mod_division_less_than_divisor(sr * window_ms, 1000);
    let p = sr * window_ms / 1000;
    assert(1000 * p > sr * window_ms - 1000);
    // Chain: 1000 * W * spr <= W * (sr * S) = (sr * W) * S < 1000 * (p + 1) * S.
    assert(1000 * (window_ms * (spr as int)) <= window_ms * (sr * s)) by (nonlinear_arith)
        requires 1000 * (spr as int) <= sr * s, window_ms > 0;
    assert(window_ms * (sr * s) == (sr * window_ms) * s) by (nonlinear_arith);
    assert((sr * window_ms) * s < (1000 * p + 1000) * s) by (nonlinear_arith)
        requires sr * window_ms < 1000 * p + 1000, s > 0;
    assert((1000 * p + 1000) * s == 1000 * ((p + 1) * s)) by (nonlinear_arith);
    assert(window_ms * (spr as int) <= (p + 1) * s) by (nonlinear_arith)
        requires 1000 * (window_ms * (spr as int)) < 1000 * ((p + 1) * s);
    assert((p + 1) * s <= (len - 2) * s) by (nonlinear_arith)
        requires p + 1 <= len - 2, s > 0;
}

/// Reading at an exact integer sample offset reproduces the stored sample:
/// the interpolation adds nothing when the fractional part is zero.
pub proof fn lemma_read_at_integer_offset(v: Seq<i64>, spr: i64, time: i64, k: int)
    requires
        2 <= v.len() <= MAX_CAPACITY,
        0 <= k <= v.len() - 2,
        -0x7fffffffffffffff <= v[k],
        q_mul_s(time, spr) == k * (SCALE as int),
    ensures
        read_s(v, spr, time) == v[k],
{
    reveal(read_s);
    let off = k * (SCALE as int);
    assert(SCALE as int == 0x40000000);
    assert(0 <= k * 0x40000000 <= (v.len() - 2) * 0x40000000 <= 0x10000000 * 0x40000000)
        by (nonlinear_arith)
        requires 0 <= k <= v.len() - 2, v.len() <= 0x10000000,
    ;
    assert(q_clamp_s(q_mul_s(time, spr), 0, ((v.len() - 2) * (SCALE as int)) as i64)
        == off as i64);
    vstd::arithmetic::div_mod::lemma_div_by_multiple(k, SCALE as int);
    vstd::arithmetic::div_mod::lemma_mod_multiples_basic(k, SCALE as int);
    assert(off / (SCALE as int) == k);
    assert(off % (SCALE as int) == 0);
    assert(q_mul_s(0i64, q_sub_s(v[k + 1], v[k])) == 0i64);
    assert(q_add_s(v[k], 0i64) == v[k]);
}

/// The view a sequence of writes leaves behind, most recent write first.
pub open spec fn write_many_s(v: Seq<i64>, xs: Seq<i64>) -> Seq<i64>
    decreases xs.len(),
{
    if xs.len() == 0 {
        v
    } else {
        write_many_s(write_s(v, xs[0]), xs.skip(1))
    }
}

/// Round trip: a sample written and then aged by any `k` further writes is
/// still found at age `k`, as long as it has not fallen off the end of the
/// buffer.
pub proof fn lemma_write_read_round_trip(v: Seq<i64>, x: i64, xs: Seq<i64>)
    requires
        xs.len() + 2 <= v.len(),
    ensures
        write_many_s(write_s(v, x), xs)[xs.len() as int] == x,
        write_many_s(write_s(v, x), xs).len() == v.len(),
    decreases xs.len(),
{
    if xs.len() == 0 {
    } else {
        let v1 = write_s(write_s(v, x), xs[0]);
        assert(v1[1] == x);
        lemma_write_many_preserves(v1, xs.skip(1), xs.len() as int);
        assert(write_many_s(write_s(v, x), xs) == write_many_s(v1, xs.skip(1)));
    }
}

/// A cell deep enough in the buffer survives a run of writes, aged by their
/// number.
pub proof fn lemma_write_many_preserves(v: Seq<i64>, xs: Seq<i64>, j: int)
    requires
        0 <= j - xs.len(),
        j < v.len() - 1 || (j < v.len() && xs.len() == 0),
    ensures
        write_many_s(v, xs).len() == v.len(),
        write_many_s(v, xs)[j] == v[j - xs.len()],
    decreases xs.len(),
{
    if xs.len() == 0 {
    } else {
        lemma_write_many_preserves(write_s(v, xs[0]), xs.skip(1), j);
    }
}

} // verus!
