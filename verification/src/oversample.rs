//! Per-channel up- and down-sampling around the nonlinear stage.
//!
//! Upsampling interpolates linearly from an anchor toward the incoming
//! sample; the anchor is deliberately the previous *filtered downsample
//! output*, not the previous raw input, which couples the two stages and
//! shapes the frequency response.  Downsampling averages the oversampled
//! taps and runs them through a fixed one-pole lowpass.

use vstd::prelude::*;
use crate::fixed::FX_ONE;
use crate::fixed::FX_CAP;
use crate::fixed::tdiv;
use crate::fixed::one_pole_v;
use crate::fixed::one_pole;
use crate::fixed::div_trunc;
use crate::fixed::lemma_tdiv_between;

verus! {

/// `0.3` in Q16: the weight of the previous filtered value in the
/// anti-aliasing lowpass.
pub const DOWNSAMPLE_SMOOTH: i64 = 19661;

/// The interpolation anchor: the previous filtered output within the
/// block, or the carried filter state at the block's first sample.
pub open spec fn up_anchor_v(down: Seq<i64>, filter: int, idx: int) -> int {
    if idx > 0 {
        down[idx - 1] as int
    } else {
        filter
    }
}

/// One interpolated tap: the anchor's weight falls linearly from one to
/// `1/factor` across the taps of a sample.
pub open spec fn up_tap_v(anchor: int, input: int, i: int, factor: int) -> int {
    one_pole_v(anchor, input, FX_ONE - i * (FX_ONE as int / factor))
}

/// All taps produced for one input sample.
pub open spec fn upsample_taps_v(anchor: int, input: int, factor: int) -> Seq<int> {
    if factor == 1 {
        seq![input]
    } else {
        Seq::new(factor as nat, |i: int| up_tap_v(anchor, input, i, factor))
    }
}

/// The sum of a sequence of taps.
pub open spec fn seq_sum_v(s: Seq<int>) -> int
    decreases s.len(),
{
    if s.len() == 0 {
        0
    } else {
        seq_sum_v(s.drop_last()) + s.last()
    }
}

/// The decimated output: the tap average pulled through the one-pole
/// lowpass, or the single tap itself when there is no oversampling.
pub open spec fn downsample_out_v(filter: int, taps: Seq<int>, factor: int) -> int {
    if factor == 1 {
        taps[0]
    } else {
        one_pole_v(filter, tdiv(seq_sum_v(taps), factor), DOWNSAMPLE_SMOOTH as int)
    }
}

/// With no oversampling the two stages compose to the identity: the one
/// tap handed out is the input, and decimation hands it back unchanged,
/// whatever the anchor and filter state hold.
pub proof fn lemma_round_trip_identity(anchor: int, filter: int, input: int)
    ensures
        downsample_out_v(filter, upsample_taps_v(anchor, input, 1), 1) == input,
{
}

/// Upsampling silence from a cleared anchor yields only silent taps.
pub proof fn lemma_upsample_taps_v_zero(factor: int)
    requires
        1 <= factor,
    ensures
        upsample_taps_v(0, 0, factor).len() == factor,
        forall|i: int| 0 <= i < factor ==> #[trigger] upsample_taps_v(0, 0, factor)[i] == 0,
{
    assert forall|i: int| 0 <= i < factor implies #[trigger] upsample_taps_v(0, 0, factor)[i]
        == 0 by {
        if factor != 1 {
            crate::fixed::lemma_one_pole_v_zero(FX_ONE - i * (FX_ONE as int / factor));
        }
    }
}

/// The sum of silent taps is zero.
pub proof fn lemma_seq_sum_v_zero(s: Seq<int>)
    requires
        forall|i: int| 0 <= i < s.len() ==> #[trigger] s[i] == 0,
    ensures
        seq_sum_v(s) == 0,
    decreases s.len(),
{
    if s.len() > 0 {
        lemma_seq_sum_v_zero(s.drop_last());
    }
}

/// Decimating silent taps through a cleared filter yields silence.
pub proof fn lemma_downsample_out_v_zero(taps: Seq<int>, factor: int)
    requires
        1 <= factor,
        taps.len() == factor,
        forall|i: int| 0 <= i < taps.len() ==> #[trigger] taps[i] == 0,
    ensures
        downsample_out_v(0, taps, factor) == 0,
{
    if factor != 1 {
        lemma_seq_sum_v_zero(taps);
        vstd::arithmetic::div_mod::lemma_div_of0(factor);
        crate::fixed::lemma_one_pole_v_zero(DOWNSAMPLE_SMOOTH as int);
    }
}

/// Linear-interpolation oversampler with a one-pole anti-aliasing filter.
pub struct Oversampler {
    /// The active factor: 1, 4, 8 or 16.
    pub factor: usize,
    /// Pre-sized storage for the oversampled taps of a block.
    pub upsample_buffer: Vec<i64>,
    /// The filtered output history of the current block.
    pub downsample_buffer: Vec<i64>,
    /// The anti-aliasing filter's one scalar of feedback.
    pub filter_state: i64,
}

impl Oversampler {
    /// The oversampler's invariant: a supported factor and bounded state.
    pub open spec fn wf(self) -> bool {
        &&& (self.factor == 1usize || self.factor == 4usize || self.factor == 8usize
            || self.factor == 16usize)
        &&& -FX_CAP <= self.filter_state <= FX_CAP
        &&& forall|i: int|
            0 <= i < self.downsample_buffer.len() ==> -FX_CAP
                <= #[trigger] self.downsample_buffer[i] <= FX_CAP
        &&& forall|i: int|
            0 <= i < self.upsample_buffer.len() ==> -FX_CAP
                <= #[trigger] self.upsample_buffer[i] <= FX_CAP
    }

    /// Buffers sized once, at construction, for the largest factor and
    /// block this instance will ever serve.
    pub fn new(max_factor: usize, max_block_size: usize) -> (r: Self)
        requires
            max_factor == 1usize || max_factor == 4usize || max_factor == 8usize
                || max_factor == 16usize,
            max_block_size <= 65536,
        ensures
            r.wf(),
            r.factor == max_factor,
            r.filter_state == 0,
            r.upsample_buffer.len() == max_block_size * max_factor,
            r.downsample_buffer.len() == max_block_size,
            forall|i: int| 0 <= i < max_block_size ==> #[trigger] r.downsample_buffer[i] == 0,
    {
        Oversampler {
            factor: max_factor,
            upsample_buffer: zeros(max_block_size * max_factor),
            downsample_buffer: zeros(max_block_size),
            filter_state: 0,
        }
    }

    /// Select how much of the pre-sized buffers is used; never resizes.
    pub fn set_factor(&mut self, factor: usize)
        requires
            old(self).wf(),
            factor == 1usize || factor == 4usize || factor == 8usize || factor == 16usize,
        ensures
            final(self).wf(),
            final(self).factor == factor,
            final(self).upsample_buffer == old(self).upsample_buffer,
            final(self).downsample_buffer == old(self).downsample_buffer,
            final(self).filter_state == old(self).filter_state,
    {
        self.factor = factor;
    }

    /// Spread one input sample over `factor` taps by linear interpolation
    /// from the anchor, store them in the upsample buffer, and return
    /// them.
    pub fn upsample(&mut self, input: i64, idx: usize) -> (taps: Vec<i64>)
        requires
            old(self).wf(),
            -FX_CAP <= input <= FX_CAP,
            idx < old(self).downsample_buffer.len(),
            (idx + 1) * old(self).factor <= old(self).upsample_buffer.len(),
        ensures
            final(self).wf(),
            taps.len() == old(self).factor,
            forall|i: int|
                0 <= i < taps.len() ==> #[trigger] taps[i] == upsample_taps_v(
                    up_anchor_v(old(self).downsample_buffer@, old(self).filter_state as int,
                        idx as int), input as int, old(self).factor as int)[i],
            forall|i: int| 0 <= i < taps.len() ==> -FX_CAP <= #[trigger] taps[i] <= FX_CAP,
            final(self).factor == old(self).factor,
            final(self).downsample_buffer == old(self).downsample_buffer,
            final(self).filter_state == old(self).filter_state,
            final(self).upsample_buffer.len() == old(self).upsample_buffer.len(),
            forall|j: int|
                0 <= j < final(self).upsample_buffer.len()
                    && !(idx * old(self).factor <= j < idx * old(self).factor
                    + old(self).factor) ==> #[trigger] final(self).upsample_buffer[j]
                    == old(self).upsample_buffer[j],
            forall|i: int|
                0 <= i < old(self).factor ==> #[trigger] final(self).upsample_buffer[idx
                    * old(self).factor + i] == taps[i],
    {
        let ghost anchor_g: int = up_anchor_v(old(self).downsample_buffer@,
            old(self).filter_state as int, idx as int);
        proof {
            let idx_i: int = idx as int;
            let f_i: int = old(self).factor as int;
            assert(idx_i * f_i + f_i == (idx_i + 1) * f_i && 0 <= idx_i * f_i)
                by (nonlinear_arith)
                requires
                    0 <= idx_i,
                    0 <= f_i,
            ;
        }
        let start: usize = idx * self.factor;
        let mut taps: Vec<i64> = Vec::new();
        if self.factor == 1 {
            self.upsample_buffer.set(start, input);
            taps.push(input);
        } else {
            let prev: i64 = if idx > 0 {
                self.downsample_buffer[idx - 1]
            } else {
                self.filter_state
            };
            let step: i64 = if self.factor == 4 {
                16384
            } else if self.factor == 8 {
                8192
            } else {
                4096
            };
            let mut t: i64 = 0;
            let mut i: usize = 0;
            while i < self.factor
                invariant
                    old(self).wf(),
                    self.factor == old(self).factor,
                    (self.factor == 4usize || self.factor == 8usize || self.factor == 16usize),
                    step as int == FX_ONE as int / self.factor as int,
                    step as int * self.factor as int == FX_ONE as int,
                    0 <= i <= self.factor,
                    t == i * step,
                    0 <= t <= FX_ONE,
                    start == idx * self.factor,
                    start + self.factor <= self.upsample_buffer.len(),
                    -FX_CAP <= input <= FX_CAP,
                    -FX_CAP <= prev <= FX_CAP,
                    prev == anchor_g,
                    taps.len() == i,
                    forall|k: int|
                        0 <= k < i ==> #[trigger] taps[k] == up_tap_v(anchor_g, input as int,
                            k, self.factor as int),
                    forall|k: int| 0 <= k < i ==> -FX_CAP <= #[trigger] taps[k] <= FX_CAP,
                    self.downsample_buffer == old(self).downsample_buffer,
                    self.filter_state == old(self).filter_state,
                    self.upsample_buffer.len() == old(self).upsample_buffer.len(),
                    forall|j: int|
                        0 <= j < self.upsample_buffer.len() && !(start <= j < start + i)
                            ==> #[trigger] self.upsample_buffer[j]
                            == old(self).upsample_buffer[j],
                    forall|k: int|
                        0 <= k < i ==> #[trigger] self.upsample_buffer[start + k] == taps[k],
                decreases self.factor - i,
            {
                proof {
                    assert((i as int + 1) * step <= (self.factor as int) * step
                        && (i as int + 1) * step == (i as int) * step + step
                        && (self.factor as int) * step == step as int * self.factor as int)
                        by (nonlinear_arith)
                        requires
                            i as int + 1 <= self.factor as int,
                            0 <= step,
                    ;
                }
                let tap: i64 = one_pole(prev, input, FX_ONE - t);
                self.upsample_buffer.set(start + i, tap);
                taps.push(tap);
                t = t + step;
                i = i + 1;
            }
        }
        proof {
            assert forall|j: int|
                0 <= j < self.upsample_buffer.len() implies -FX_CAP
                <= #[trigger] self.upsample_buffer[j] <= FX_CAP by {
                if start <= j < start + self.factor {
                    let k: int = j - start;
                    assert(self.upsample_buffer[start as int + k] == taps[k]);
                } else {
                    assert(self.upsample_buffer[j] == old(self).upsample_buffer[j]);
                }
            }
        }
        taps
    }

    /// Collapse the processed taps of one sample into a single output:
    /// average, lowpass, remember the result as the next interpolation
    /// anchor.
    pub fn downsample(&mut self, processed: &Vec<i64>, idx: usize) -> (r: i64)
        requires
            old(self).wf(),
            processed.len() == old(self).factor,
            forall|i: int| 0 <= i < processed.len() ==> -FX_CAP <= #[trigger] processed[i]
                <= FX_CAP,
            idx < old(self).downsample_buffer.len(),
        ensures
            final(self).wf(),
            r == downsample_out_v(old(self).filter_state as int,
                processed@.map_values(|v: i64| v as int), old(self).factor as int),
            -FX_CAP <= r <= FX_CAP,
            final(self).factor == old(self).factor,
            final(self).upsample_buffer == old(self).upsample_buffer,
            old(self).factor == 1 ==> final(self).downsample_buffer
                == old(self).downsample_buffer && final(self).filter_state
                == old(self).filter_state,
            old(self).factor != 1 ==> final(self).filter_state == r
                && final(self).downsample_buffer@ == old(self).downsample_buffer@.update(
                idx as int, r),
    {
        let ghost mapped: Seq<int> = processed@.map_values(|v: i64| v as int);
        if self.factor == 1 {
            processed[0]
        } else {
            let mut acc: i64 = 0;
            let mut i: usize = 0;
            while i < self.factor
                invariant
                    old(self).wf(),
                    self.factor == old(self).factor,
                    self.filter_state == old(self).filter_state,
                    self.upsample_buffer == old(self).upsample_buffer,
                    self.downsample_buffer == old(self).downsample_buffer,
                    processed.len() == self.factor,
                    forall|k: int| 0 <= k < processed.len() ==> -FX_CAP
                        <= #[trigger] processed[k] <= FX_CAP,
                    mapped == processed@.map_values(|v: i64| v as int),
                    0 <= i <= self.factor,
                    acc == seq_sum_v(mapped.take(i as int)),
                    -(i as int) * FX_CAP <= acc <= (i as int) * FX_CAP,
                decreases self.factor - i,
            {
                proof {
                    assert(mapped.take(i as int + 1).drop_last() =~= mapped.take(i as int));
                    assert(mapped[i as int] == processed[i as int] as int);
                }
                acc = acc + processed[i];
                i = i + 1;
            }
            proof {
                assert(mapped.take(self.factor as int) =~= mapped);
                assert(-(FX_CAP as int) * (self.factor as int) <= acc as int
                    <= (FX_CAP as int) * (self.factor as int)) by (nonlinear_arith)
                    requires
                        -(self.factor as int) * FX_CAP <= acc as int
                            <= (self.factor as int) * FX_CAP,
                ;
                lemma_tdiv_between(-(FX_CAP as int), FX_CAP as int, acc as int,
                    self.factor as int);
            }
            let average: i64 = div_trunc(acc, self.factor as i64);
            let filtered: i64 = one_pole(self.filter_state, average, DOWNSAMPLE_SMOOTH);
            self.filter_state = filtered;
            self.downsample_buffer.set(idx, filtered);
            filtered
        }
    }

    /// Forget the filter history and the block's filtered outputs.
    pub fn reset(&mut self)
        requires
            old(self).wf(),
        ensures
            final(self).wf(),
            final(self).factor == old(self).factor,
            final(self).filter_state == 0,
            final(self).upsample_buffer == old(self).upsample_buffer,
            final(self).downsample_buffer.len() == old(self).downsample_buffer.len(),
            forall|i: int|
                0 <= i < final(self).downsample_buffer.len()
                    ==> #[trigger] final(self).downsample_buffer[i] == 0,
    {
        self.filter_state = 0;
        let n: usize = self.downsample_buffer.len();
        let mut i: usize = 0;
        while i < n
            invariant
                old(self).wf(),
                self.factor == old(self).factor,
                self.filter_state == 0,
                self.upsample_buffer == old(self).upsample_buffer,
                n == self.downsample_buffer.len(),
                n == old(self).downsample_buffer.len(),
                0 <= i <= n,
                forall|k: int| 0 <= k < i ==> #[trigger] self.downsample_buffer[k] == 0,
                forall|k: int|
                    i <= k < n ==> #[trigger] self.downsample_buffer[k]
                        == old(self).downsample_buffer[k],
            decreases n - i,
        {
            self.downsample_buffer.set(i, 0);
            i = i + 1;
        }
    }
}

/// A vector of `n` zeros.
fn zeros(n: usize) -> (r: Vec<i64>)
    ensures
        r.len() == n,
        forall|i: int| 0 <= i < n ==> #[trigger] r[i] == 0,
{
    let mut v: Vec<i64> = Vec::new();
    let mut i: usize = 0;
    while i < n
        invariant
            0 <= i <= n,
            v.len() == i,
            forall|k: int| 0 <= k < i ==> #[trigger] v[k] == 0,
        decreases n - i,
    {
        v.push(0);
        i = i + 1;
    }
    v
}

} // verus!
