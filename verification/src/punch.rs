//! The combined clipper and transient shaper: a two-channel stage that
//! drives each sample through input gain, oversampling, transient
//! detection, clipping, shaping and decimation, then mixes the result
//! against the dry path.

use vstd::prelude::*;
use crate::fixed::FX_ONE;
use crate::fixed::FX_CAP;
use crate::fixed::GAIN_MAX;
use crate::fixed::DB_MIN;
use crate::fixed::DB_MAX;
use crate::fixed::fx_sat;
use crate::fixed::fx_abs;
use crate::fixed::fx_max;
use crate::fixed::clamp_v;
use crate::fixed::fx_mul_v;
use crate::fixed::fx_div_v;
use crate::fixed::one_pole_v;
use crate::fixed::db_to_linear_v;
use crate::fixed::fx_mul;
use crate::fixed::fx_div;
use crate::fixed::sat_add;
use crate::fixed::one_pole;
use crate::fixed::clamp64;
use crate::fixed::db_to_linear;
use crate::envelope::env_step_v;
use crate::envelope::time_to_coeff_v;
use crate::transient::TransientDetector;
use crate::transient::det_smooth_v;
use crate::clip::ClipMode;
use crate::clip::apply_clipping_v;
use crate::clip::apply_clipping;
use crate::shape::shaped_v;
use crate::shape::apply_transient_shaping;
use crate::oversample::Oversampler;
use crate::oversample::upsample_taps_v;
use crate::oversample::downsample_out_v;

verus! {

/// The largest supported oversampling factor.
pub const MAX_OS_FACTOR: usize = 16;

/// The largest block a module instance will process.
pub const MAX_BLOCK_SIZE: usize = 8192;

/// Largest accepted host sample rate (2^24 in Q16), so the oversampled
/// effective rate stays inside the coefficient formula's domain.
pub const HOST_RATE_MAX: i64 = 1099511627776;

/// `0.95` in Q16: the weight a channel's shaping smoother keeps per tap.
pub const SHAPE_SMOOTH_KEEP: i64 = 62259;

/// `0.9` in Q16: the weight the display meters keep per block.
pub const METER_KEEP: i64 = 58982;

/// Below this tap magnitude (about 1e-4) no gain reduction is metered.
pub const GR_EPS: i64 = 7;

/// Default clip threshold: -1 dBFS as a linear Q16 gain (about 0.891).
pub const DEFAULT_THRESHOLD: i64 = 58393;

/// Default transient attack gain: +0.2 in Q16.
pub const DEFAULT_ATTACK: i64 = 13107;

/// Default attack time: 5 ms in Q16.
pub const DEFAULT_ATTACK_TIME_MS: i64 = 327680;

/// Default release time: 100 ms in Q16.
pub const DEFAULT_RELEASE_TIME_MS: i64 = 6553600;

/// Shortest attack time: 0.1 ms in Q16.
pub const ATTACK_TIME_MIN: i64 = 6554;

/// Longest attack time: 30 ms in Q16.
pub const ATTACK_TIME_MAX: i64 = 1966080;

/// Shortest release time: 10 ms in Q16.
pub const RELEASE_TIME_MIN: i64 = 655360;

/// Longest release time: 500 ms in Q16.
pub const RELEASE_TIME_MAX: i64 = 32768000;

/// The selectable oversampling factors.
#[derive(Clone, Copy, PartialEq, Eq, Structural, Debug)]
pub enum OversamplingFactor {
    /// No oversampling.
    X1,
    /// Four internal taps per sample.
    X4,
    /// Eight internal taps per sample: the default.
    X8,
    /// Sixteen internal taps per sample.
    X16,
}

impl Default for OversamplingFactor {
    /// Eight-fold oversampling is the default.
    fn default() -> (r: Self)
        ensures
            r == OversamplingFactor::X8,
    {
        OversamplingFactor::X8
    }
}

impl OversamplingFactor {
    /// The numeric ratio of the internal rate to the host rate.
    pub open spec fn factor_v(self) -> int {
        match self {
            OversamplingFactor::X1 => 1,
            OversamplingFactor::X4 => 4,
            OversamplingFactor::X8 => 8,
            OversamplingFactor::X16 => 16,
        }
    }

    /// Get the numeric factor.
    pub fn factor(&self) -> (r: usize)
        ensures
            r == self.factor_v(),
            r == 1usize || r == 4usize || r == 8usize || r == 16usize,
    {
        match self {
            OversamplingFactor::X1 => 1,
            OversamplingFactor::X4 => 4,
            OversamplingFactor::X8 => 8,
            OversamplingFactor::X16 => 16,
        }
    }
}

/// The per-block parameter snapshot, already converted and clamped.
pub struct PunchParameters {
    /// Clipping threshold as a linear Q16 gain.
    pub clip_threshold: i64,
    /// Which transfer curve clips the signal.
    pub clip_mode: ClipMode,
    /// Softness of the clipping knee, a fraction of one.
    pub softness: i64,
    /// How many internal taps serve one host sample.
    pub oversampling: OversamplingFactor,
    /// Transient boost (positive) or cut (negative), in `[-1, 1]`.
    pub attack: i64,
    /// Sustain boost (positive) or cut (negative), in `[-1, 1]`.
    pub sustain: i64,
    /// Detector attack time in milliseconds, Q16.
    pub attack_time_ms: i64,
    /// Detector release time in milliseconds, Q16.
    pub release_time_ms: i64,
    /// Detector sensitivity, a fraction of one.
    pub sensitivity: i64,
    /// Linear input gain.
    pub input_gain: i64,
    /// Linear output gain.
    pub output_gain: i64,
    /// Dry/wet mix, a fraction of one.
    pub mix: i64,
}

impl PunchParameters {
    /// Every field sits inside its documented range.
    pub open spec fn wf(self) -> bool {
        &&& 1 <= self.clip_threshold <= GAIN_MAX
        &&& 0 <= self.softness <= FX_ONE
        &&& -FX_ONE <= self.attack <= FX_ONE
        &&& -FX_ONE <= self.sustain <= FX_ONE
        &&& ATTACK_TIME_MIN <= self.attack_time_ms <= ATTACK_TIME_MAX
        &&& RELEASE_TIME_MIN <= self.release_time_ms <= RELEASE_TIME_MAX
        &&& 0 <= self.sensitivity <= FX_ONE
        &&& 1 <= self.input_gain <= GAIN_MAX
        &&& 1 <= self.output_gain <= GAIN_MAX
        &&& 0 <= self.mix <= FX_ONE
    }
}

/// All DSP state one channel owns.
pub struct ChannelState {
    /// The channel's transient detector.
    pub detector: TransientDetector,
    /// The channel's oversampler.
    pub oversampler: Oversampler,
    /// The one-pole smoothing state applied to the shaped taps.
    pub smooth: i64,
}

impl ChannelState {
    /// The channel invariant: healthy parts and full-size buffers.
    pub open spec fn wf(self) -> bool {
        &&& self.detector.wf()
        &&& self.oversampler.wf()
        &&& -FX_CAP <= self.smooth <= FX_CAP
        &&& self.oversampler.upsample_buffer.len() == MAX_BLOCK_SIZE * MAX_OS_FACTOR
        &&& self.oversampler.downsample_buffer.len() == MAX_BLOCK_SIZE
    }
}

/// The ghost image of one channel's evolving state: the two envelopes,
/// the smoothed transient, the decimation filter and the shaping
/// smoother.
pub ghost struct ChanModel {
    /// Fast envelope value.
    pub fast: int,
    /// Slow envelope value.
    pub slow: int,
    /// Smoothed transient amount.
    pub smoothed: int,
    /// Decimation filter feedback.
    pub filter: int,
    /// Shaping smoother state.
    pub smooth: int,
}

/// The ghost image of everything that stays fixed across a block.
pub ghost struct BlockParams {
    /// Fast envelope attack coefficient.
    pub fast_att: int,
    /// Fast envelope release coefficient.
    pub fast_rel: int,
    /// Slow envelope attack coefficient.
    pub slow_att: int,
    /// Slow envelope release coefficient.
    pub slow_rel: int,
    /// Detector sensitivity.
    pub sens: int,
    /// Detector output smoothing coefficient.
    pub det_coeff: int,
    /// Clipping threshold.
    pub threshold: int,
    /// Knee softness.
    pub softness: int,
    /// Selected transfer curve.
    pub mode: ClipMode,
    /// Transient gain.
    pub attack: int,
    /// Sustain gain.
    pub sustain: int,
    /// Linear input gain.
    pub input_gain: int,
    /// Linear output gain.
    pub output_gain: int,
    /// Dry/wet mix.
    pub mix: int,
    /// Oversampling factor.
    pub factor: int,
}

/// The model of a channel's current state.
pub open spec fn chan_model_of(ch: ChannelState) -> ChanModel {
    ChanModel {
        fast: ch.detector.fast_envelope.envelope as int,
        slow: ch.detector.slow_envelope.envelope as int,
        smoothed: ch.detector.smoothed_transient as int,
        filter: ch.oversampler.filter_state as int,
        smooth: ch.smooth as int,
    }
}

/// The fixed per-block quantities, from the snapshot and the channel's
/// detector coefficients.
pub open spec fn block_params_of(p: PunchParameters, det: TransientDetector) -> BlockParams {
    BlockParams {
        fast_att: det.fast_envelope.attack_coeff as int,
        fast_rel: det.fast_envelope.release_coeff as int,
        slow_att: det.slow_envelope.attack_coeff as int,
        slow_rel: det.slow_envelope.release_coeff as int,
        sens: det.sensitivity as int,
        det_coeff: det.smoothing_coeff as int,
        threshold: p.clip_threshold as int,
        softness: p.softness as int,
        mode: p.clip_mode,
        attack: p.attack as int,
        sustain: p.sustain as int,
        input_gain: p.input_gain as int,
        output_gain: p.output_gain as int,
        mix: p.mix as int,
        factor: p.oversampling.factor_v(),
    }
}

/// What one oversampled tap produces: the advanced state, the smoothed
/// shaped value written to the tap buffer, and this tap's contribution to
/// the two meters.
pub ghost struct TapOut {
    /// The state after the tap.
    pub st: ChanModel,
    /// The smoothed shaped value.
    pub out: int,
    /// The metered gain reduction of this tap.
    pub gr: int,
    /// The metered transient activity of this tap.
    pub tr: int,
}

/// Advance one channel by one oversampled tap: detect, clip, meter,
/// shape, smooth.
pub open spec fn tap_step(p: BlockParams, st: ChanModel, tap: int) -> TapOut {
    let fast = env_step_v(st.fast, p.fast_att, p.fast_rel, tap);
    let slow = env_step_v(st.slow, p.slow_att, p.slow_rel, tap);
    let smoothed = det_smooth_v(st.smoothed, p.det_coeff, p.sens, fast, slow);
    let clipped = apply_clipping_v(tap, p.threshold, p.softness, p.mode);
    let gr = if fx_abs(tap) > GR_EPS {
        fx_div_v(fx_abs(tap) - fx_abs(clipped), fx_abs(tap))
    } else {
        0
    };
    let shaped = shaped_v(clipped, smoothed, p.attack, p.sustain);
    let smooth = one_pole_v(st.smooth, shaped, SHAPE_SMOOTH_KEEP as int);
    TapOut {
        st: ChanModel { fast, slow, smoothed, filter: st.filter, smooth },
        out: smooth,
        gr: gr,
        tr: smoothed,
    }
}

/// What a run over several taps produces.
pub ghost struct TapsOut {
    /// The state after the taps.
    pub st: ChanModel,
    /// The smoothed shaped values, one per tap.
    pub outs: Seq<int>,
    /// The peak metered gain reduction.
    pub gr: int,
    /// The peak metered transient activity.
    pub tr: int,
}

/// Fold `tap_step` over the taps of one sample.
pub open spec fn taps_run(p: BlockParams, st: ChanModel, taps: Seq<int>) -> TapsOut
    decreases taps.len(),
{
    if taps.len() == 0 {
        TapsOut { st, outs: Seq::empty(), gr: 0, tr: 0 }
    } else {
        let prev = taps_run(p, st, taps.drop_last());
        let t = tap_step(p, prev.st, taps.last());
        TapsOut {
            st: t.st,
            outs: prev.outs.push(t.out),
            gr: fx_max(prev.gr, t.gr),
            tr: fx_max(prev.tr, t.tr),
        }
    }
}

/// What one host sample produces.
pub ghost struct SampleOut {
    /// The state after the sample.
    pub st: ChanModel,
    /// The value written back to the buffer.
    pub y: int,
    /// The sample's peak metered gain reduction.
    pub gr: int,
    /// The sample's peak metered transient activity.
    pub tr: int,
}

/// Advance one channel by one host sample: gain, upsample from the
/// filtered history, run the taps, decimate, mix against the dry path,
/// apply output gain.
pub open spec fn sample_step(p: BlockParams, st: ChanModel, x: int) -> SampleOut {
    let gained = fx_mul_v(x, p.input_gain);
    let taps = upsample_taps_v(st.filter, gained, p.factor);
    let run = taps_run(p, st, taps);
    let processed = downsample_out_v(st.filter, run.outs, p.factor);
    let st2 = ChanModel {
        filter: if p.factor == 1 {
            st.filter
        } else {
            processed
        },
        ..run.st
    };
    let mixed = fx_sat(fx_mul_v(gained, FX_ONE - p.mix) + fx_mul_v(processed, p.mix));
    SampleOut { st: st2, y: fx_mul_v(mixed, p.output_gain), gr: run.gr, tr: run.tr }
}

/// What a run over a whole block produces.
pub ghost struct ChanRun {
    /// The state after the block.
    pub st: ChanModel,
    /// The output samples.
    pub ys: Seq<int>,
    /// The block's peak metered gain reduction.
    pub gr: int,
    /// The block's peak metered transient activity.
    pub tr: int,
}

/// Fold `sample_step` over a channel's input samples.
pub open spec fn chan_run(p: BlockParams, st: ChanModel, xs: Seq<i64>) -> ChanRun
    decreases xs.len(),
{
    if xs.len() == 0 {
        ChanRun { st, ys: Seq::empty(), gr: 0, tr: 0 }
    } else {
        let prev = chan_run(p, st, xs.drop_last());
        let s = sample_step(p, prev.st, xs.last() as int);
        ChanRun {
            st: s.st,
            ys: prev.ys.push(s.y),
            gr: fx_max(prev.gr, s.gr),
            tr: fx_max(prev.tr, s.tr),
        }
    }
}

/// The cleared channel model: what `new` and `reset` leave behind.
pub open spec fn zero_model() -> ChanModel {
    ChanModel { fast: 0, slow: 0, smoothed: 0, filter: 0, smooth: 0 }
}

/// One silent tap through a cleared channel changes nothing and meters
/// nothing.
proof fn lemma_tap_step_zero(p: BlockParams)
    requires
        1 <= p.threshold <= GAIN_MAX as int,
        0 <= p.softness <= FX_ONE as int,
    ensures
        tap_step(p, zero_model(), 0) == (TapOut { st: zero_model(), out: 0, gr: 0, tr: 0 }),
{
    crate::envelope::lemma_env_step_v_zero(p.fast_att, p.fast_rel);
    crate::envelope::lemma_env_step_v_zero(p.slow_att, p.slow_rel);
    crate::transient::lemma_det_smooth_v_zero(p.det_coeff, p.sens);
    crate::clip::lemma_apply_clipping_v_zero(p.threshold, p.softness, p.mode);
    crate::shape::lemma_shaped_v_zero(0, p.attack, p.sustain);
    crate::fixed::lemma_one_pole_v_zero(SHAPE_SMOOTH_KEEP as int);
}

/// Silent taps through a cleared channel stay silent.
proof fn lemma_taps_run_zero(p: BlockParams, taps: Seq<int>)
    requires
        1 <= p.threshold <= GAIN_MAX as int,
        0 <= p.softness <= FX_ONE as int,
        forall|i: int| 0 <= i < taps.len() ==> #[trigger] taps[i] == 0,
    ensures
        taps_run(p, zero_model(), taps).st == zero_model(),
        taps_run(p, zero_model(), taps).outs.len() == taps.len(),
        forall|i: int|
            0 <= i < taps.len() ==> #[trigger] taps_run(p, zero_model(), taps).outs[i] == 0,
        taps_run(p, zero_model(), taps).gr == 0,
        taps_run(p, zero_model(), taps).tr == 0,
    decreases taps.len(),
{
    if taps.len() > 0 {
        lemma_taps_run_zero(p, taps.drop_last());
        lemma_tap_step_zero(p);
    }
}

/// One silent sample through a cleared channel comes out silent.
proof fn lemma_sample_step_zero(p: BlockParams)
    requires
        1 <= p.threshold <= GAIN_MAX as int,
        0 <= p.softness <= FX_ONE as int,
        1 <= p.factor,
    ensures
        sample_step(p, zero_model(), 0) == (SampleOut { st: zero_model(), y: 0, gr: 0, tr: 0 }),
{
    crate::fixed::lemma_fx_mul_v_zero(p.input_gain);
    crate::oversample::lemma_upsample_taps_v_zero(p.factor);
    let taps = upsample_taps_v(0, 0, p.factor);
    lemma_taps_run_zero(p, taps);
    crate::oversample::lemma_downsample_out_v_zero(taps_run(p, zero_model(), taps).outs,
        p.factor);
    crate::fixed::lemma_fx_mul_v_zero(FX_ONE - p.mix);
    crate::fixed::lemma_fx_mul_v_zero(p.mix);
    crate::fixed::lemma_fx_mul_v_zero(p.output_gain);
}

/// A silent block through a cleared channel stays silent: every output
/// sample is zero, the channel state stays cleared, and no gain
/// reduction or transient activity is metered; so the display meters can
/// only decay while silence lasts.
pub proof fn lemma_silence_stays_silent(p: BlockParams, xs: Seq<i64>)
    requires
        1 <= p.threshold <= GAIN_MAX as int,
        0 <= p.softness <= FX_ONE as int,
        1 <= p.factor,
        forall|i: int| 0 <= i < xs.len() ==> #[trigger] xs[i] == 0,
    ensures
        chan_run(p, zero_model(), xs).st == zero_model(),
        chan_run(p, zero_model(), xs).ys.len() == xs.len(),
        forall|i: int|
            0 <= i < xs.len() ==> #[trigger] chan_run(p, zero_model(), xs).ys[i] == 0,
        chan_run(p, zero_model(), xs).gr == 0,
        chan_run(p, zero_model(), xs).tr == 0,
    decreases xs.len(),
{
    if xs.len() > 0 {
        lemma_silence_stays_silent(p, xs.drop_last());
        lemma_sample_step_zero(p);
    }
}

/// A tap run yields one output per tap.
pub proof fn lemma_taps_run_len(p: BlockParams, st: ChanModel, taps: Seq<int>)
    ensures
        taps_run(p, st, taps).outs.len() == taps.len(),
    decreases taps.len(),
{
    if taps.len() > 0 {
        lemma_taps_run_len(p, st, taps.drop_last());
    }
}

/// A block run yields one output sample per input sample.
pub proof fn lemma_chan_run_len(p: BlockParams, st: ChanModel, xs: Seq<i64>)
    ensures
        chan_run(p, st, xs).ys.len() == xs.len(),
    decreases xs.len(),
{
    if xs.len() > 0 {
        lemma_chan_run_len(p, st, xs.drop_last());
    }
}

/// The combined clipper and transient shaper for one stereo pair.
pub struct PunchModule {
    /// The host sample rate in Q16 samples per second.
    pub sample_rate: i64,
    /// The active parameter snapshot.
    pub params: PunchParameters,
    /// The left channel's state.
    pub left: ChannelState,
    /// The right channel's state.
    pub right: ChannelState,
    /// Smoothed gain-reduction meter, display only.
    pub gain_reduction: i64,
    /// Smoothed transient-activity meter, display only.
    pub transient_activity: i64,
}

impl PunchModule {
    /// The module invariant: a sane snapshot, healthy channels whose
    /// oversamplers follow the snapshot's factor, and non-negative
    /// meters.
    pub open spec fn wf(self) -> bool {
        &&& self.params.wf()
        &&& self.left.wf()
        &&& self.right.wf()
        &&& 1 <= self.sample_rate <= HOST_RATE_MAX
        &&& self.left.oversampler.factor == self.params.oversampling.factor_v()
        &&& self.right.oversampler.factor == self.params.oversampling.factor_v()
        &&& 0 <= self.gain_reduction <= FX_CAP
        &&& 0 <= self.transient_activity <= FX_CAP
    }

    /// A fresh module at the given host rate, with the default snapshot:
    /// a -1 dBFS hard clipper at eight-fold oversampling, a gentle
    /// transient boost, unity gains and a fully wet mix.
    pub fn new(sample_rate: i64) -> (r: Self)
        requires
            1 <= sample_rate <= HOST_RATE_MAX,
        ensures
            r.wf(),
            r.sample_rate == sample_rate,
            r.params.clip_threshold == DEFAULT_THRESHOLD,
            r.params.clip_mode == ClipMode::Hard,
            r.params.softness == 0,
            r.params.oversampling == OversamplingFactor::X8,
            r.params.attack == DEFAULT_ATTACK,
            r.params.sustain == 0,
            r.params.attack_time_ms == DEFAULT_ATTACK_TIME_MS,
            r.params.release_time_ms == DEFAULT_RELEASE_TIME_MS,
            r.params.sensitivity == 32768,
            r.params.input_gain == FX_ONE,
            r.params.output_gain == FX_ONE,
            r.params.mix == FX_ONE,
            chan_model_of(r.left) == (ChanModel { fast: 0, slow: 0, smoothed: 0, filter: 0,
                smooth: 0 }),
            chan_model_of(r.right) == (ChanModel { fast: 0, slow: 0, smoothed: 0, filter: 0,
                smooth: 0 }),
            r.gain_reduction == 0,
            r.transient_activity == 0,
    {
        let params = PunchParameters {
            clip_threshold: DEFAULT_THRESHOLD,
            clip_mode: ClipMode::Hard,
            softness: 0,
            oversampling: OversamplingFactor::X8,
            attack: DEFAULT_ATTACK,
            sustain: 0,
            attack_time_ms: DEFAULT_ATTACK_TIME_MS,
            release_time_ms: DEFAULT_RELEASE_TIME_MS,
            sensitivity: 32768,
            input_gain: FX_ONE,
            output_gain: FX_ONE,
            mix: FX_ONE,
        };
        let mut left_os: Oversampler = Oversampler::new(MAX_OS_FACTOR, MAX_BLOCK_SIZE);
        left_os.set_factor(8);
        let mut right_os: Oversampler = Oversampler::new(MAX_OS_FACTOR, MAX_BLOCK_SIZE);
        right_os.set_factor(8);
        PunchModule {
            sample_rate,
            params,
            left: ChannelState {
                detector: TransientDetector::new(sample_rate),
                oversampler: left_os,
                smooth: 0,
            },
            right: ChannelState {
                detector: TransientDetector::new(sample_rate),
                oversampler: right_os,
                smooth: 0,
            },
            gain_reduction: 0,
            transient_activity: 0,
        }
    }

    /// Install a fresh parameter snapshot.  Decibel fields become linear
    /// gains, every numeric field is clamped into its documented range,
    /// nothing is ever rejected, and the detectors are retimed against
    /// the oversampled effective rate so the perceived attack and release
    /// do not depend on the chosen factor.
    pub fn update_parameters(
        &mut self,
        clip_threshold_db: i64,
        clip_mode: ClipMode,
        softness: i64,
        oversampling: OversamplingFactor,
        attack: i64,
        sustain: i64,
        attack_time_ms: i64,
        release_time_ms: i64,
        sensitivity: i64,
        input_gain_db: i64,
        output_gain_db: i64,
        mix: i64,
    )
        requires
            old(self).wf(),
        ensures
            final(self).wf(),
            final(self).sample_rate == old(self).sample_rate,
            final(self).params.clip_threshold == db_to_linear_v(clamp_v(
                clip_threshold_db as int, DB_MIN as int, DB_MAX as int)),
            final(self).params.clip_mode == clip_mode,
            final(self).params.softness == clamp_v(softness as int, 0, FX_ONE as int),
            final(self).params.oversampling == oversampling,
            final(self).params.attack == clamp_v(attack as int, -(FX_ONE as int),
                FX_ONE as int),
            final(self).params.sustain == clamp_v(sustain as int, -(FX_ONE as int),
                FX_ONE as int),
            final(self).params.attack_time_ms == clamp_v(attack_time_ms as int,
                ATTACK_TIME_MIN as int, ATTACK_TIME_MAX as int),
            final(self).params.release_time_ms == clamp_v(release_time_ms as int,
                RELEASE_TIME_MIN as int, RELEASE_TIME_MAX as int),
            final(self).params.sensitivity == clamp_v(sensitivity as int, 0, FX_ONE as int),
            final(self).params.input_gain == db_to_linear_v(clamp_v(input_gain_db as int,
                DB_MIN as int, DB_MAX as int)),
            final(self).params.output_gain == db_to_linear_v(clamp_v(output_gain_db as int,
                DB_MIN as int, DB_MAX as int)),
            final(self).params.mix == clamp_v(mix as int, 0, FX_ONE as int),
            final(self).left.detector.fast_envelope.envelope
                == old(self).left.detector.fast_envelope.envelope,
            final(self).left.detector.slow_envelope.envelope
                == old(self).left.detector.slow_envelope.envelope,
            final(self).left.detector.smoothed_transient
                == old(self).left.detector.smoothed_transient,
            final(self).right.detector.fast_envelope.envelope
                == old(self).right.detector.fast_envelope.envelope,
            final(self).right.detector.slow_envelope.envelope
                == old(self).right.detector.slow_envelope.envelope,
            final(self).right.detector.smoothed_transient
                == old(self).right.detector.smoothed_transient,
            final(self).left.smooth == old(self).left.smooth,
            final(self).right.smooth == old(self).right.smooth,
            final(self).left.oversampler.filter_state
                == old(self).left.oversampler.filter_state,
            final(self).right.oversampler.filter_state
                == old(self).right.oversampler.filter_state,
            final(self).gain_reduction == old(self).gain_reduction,
            final(self).transient_activity == old(self).transient_activity,
            final(self).left.detector.fast_envelope.attack_coeff == time_to_coeff_v(
                fx_mul_v(final(self).params.attack_time_ms as int,
                crate::transient::FAST_ATTACK_SCALE as int),
                old(self).sample_rate as int * oversampling.factor_v()),
            final(self).left.detector.fast_envelope.release_coeff == time_to_coeff_v(
                final(self).params.attack_time_ms as int,
                old(self).sample_rate as int * oversampling.factor_v()),
            final(self).left.detector.slow_envelope.attack_coeff == time_to_coeff_v(
                fx_mul_v(final(self).params.release_time_ms as int,
                crate::transient::SLOW_ATTACK_SCALE as int),
                old(self).sample_rate as int * oversampling.factor_v()),
            final(self).left.detector.slow_envelope.release_coeff == time_to_coeff_v(
                final(self).params.release_time_ms as int,
                old(self).sample_rate as int * oversampling.factor_v()),
            final(self).left.detector.sensitivity == final(self).params.sensitivity,
            final(self).left.detector.smoothing_coeff == time_to_coeff_v(
                crate::transient::UPDATE_SMOOTH_MS as int,
                old(self).sample_rate as int * oversampling.factor_v()),
            final(self).right.detector.fast_envelope.attack_coeff
                == final(self).left.detector.fast_envelope.attack_coeff,
            final(self).right.detector.fast_envelope.release_coeff
                == final(self).left.detector.fast_envelope.release_coeff,
            final(self).right.detector.slow_envelope.attack_coeff
                == final(self).left.detector.slow_envelope.attack_coeff,
            final(self).right.detector.slow_envelope.release_coeff
                == final(self).left.detector.slow_envelope.release_coeff,
            final(self).right.detector.sensitivity == final(self).left.detector.sensitivity,
            final(self).right.detector.smoothing_coeff
                == final(self).left.detector.smoothing_coeff,
    {
        self.params.clip_threshold = db_to_linear(clamp64(clip_threshold_db, DB_MIN, DB_MAX));
        self.params.clip_mode = clip_mode;
        self.params.softness = clamp64(softness, 0, FX_ONE);
        self.params.oversampling = oversampling;
        self.params.attack = clamp64(attack, -FX_ONE, FX_ONE);
        self.params.sustain = clamp64(sustain, -FX_ONE, FX_ONE);
        self.params.attack_time_ms = clamp64(attack_time_ms, ATTACK_TIME_MIN, ATTACK_TIME_MAX);
        self.params.release_time_ms = clamp64(release_time_ms, RELEASE_TIME_MIN,
            RELEASE_TIME_MAX);
        self.params.sensitivity = clamp64(sensitivity, 0, FX_ONE);
        self.params.input_gain = db_to_linear(clamp64(input_gain_db, DB_MIN, DB_MAX));
        self.params.output_gain = db_to_linear(clamp64(output_gain_db, DB_MIN, DB_MAX));
        self.params.mix = clamp64(mix, 0, FX_ONE);
        let os_factor: usize = self.params.oversampling.factor();
        self.left.oversampler.set_factor(os_factor);
        self.right.oversampler.set_factor(os_factor);
        proof {
            let rate_i: int = old(self).sample_rate as int;
            let f_i: int = oversampling.factor_v();
            assert(1 <= rate_i * f_i <= 17592186044416) by (nonlinear_arith)
                requires
                    1 <= rate_i <= 1099511627776,
                    1 <= f_i <= 16,
            ;
        }
        let effective_rate: i64 = self.sample_rate * (os_factor as i64);
        self.left.detector.update_parameters(effective_rate, self.params.attack_time_ms,
            self.params.release_time_ms, self.params.sensitivity);
        self.right.detector.update_parameters(effective_rate, self.params.attack_time_ms,
            self.params.release_time_ms, self.params.sensitivity);
    }

    /// Transform a stereo block in place.
    ///
    /// Each channel is processed independently against the same
    /// snapshot: per sample the input is gained, spread over the
    /// oversampled taps, each tap is measured, clipped, shaped and
    /// smoothed, the taps are decimated, and the result is mixed against
    /// the dry path and gained out.  Both display meters then take one
    /// smoothing step toward the block's peak gain reduction and peak
    /// transient activity, gathered across both channels at the
    /// oversampled rate.
    pub fn process(&mut self, left: &mut Vec<i64>, right: &mut Vec<i64>)
        requires
            old(self).wf(),
            old(left).len() == old(right).len(),
            old(left).len() <= MAX_BLOCK_SIZE,
            forall|i: int| 0 <= i < old(left).len() ==> -FX_CAP <= #[trigger] old(left)[i]
                <= FX_CAP,
            forall|i: int| 0 <= i < old(right).len() ==> -FX_CAP <= #[trigger] old(right)[i]
                <= FX_CAP,
        ensures
            final(self).wf(),
            final(self).sample_rate == old(self).sample_rate,
            final(self).params == old(self).params,
            final(left).len() == old(left).len(),
            final(right).len() == old(right).len(),
            ({
                let runl = chan_run(block_params_of(old(self).params, old(self).left.detector),
                    chan_model_of(old(self).left), old(left)@);
                let runr = chan_run(block_params_of(old(self).params,
                    old(self).right.detector), chan_model_of(old(self).right), old(right)@);
                &&& chan_model_of(final(self).left) == runl.st
                &&& chan_model_of(final(self).right) == runr.st
                &&& forall|i: int|
                    0 <= i < final(left).len() ==> #[trigger] final(left)[i] == runl.ys[i]
                &&& forall|i: int|
                    0 <= i < final(right).len() ==> #[trigger] final(right)[i] == runr.ys[i]
                &&& final(self).gain_reduction == one_pole_v(old(self).gain_reduction as int,
                    fx_max(runl.gr, runr.gr), METER_KEEP as int)
                &&& final(self).transient_activity == one_pole_v(
                    old(self).transient_activity as int, fx_max(runl.tr, runr.tr),
                    METER_KEEP as int)
            }),
    {
        let (gr_l, tr_l): (i64, i64) = process_channel(&mut self.left, &self.params, left);
        let (gr_r, tr_r): (i64, i64) = process_channel(&mut self.right, &self.params, right);
        let gr_peak: i64 = if gr_l >= gr_r {
            gr_l
        } else {
            gr_r
        };
        let tr_peak: i64 = if tr_l >= tr_r {
            tr_l
        } else {
            tr_r
        };
        self.gain_reduction = one_pole(self.gain_reduction, gr_peak, METER_KEEP);
        self.transient_activity = one_pole(self.transient_activity, tr_peak, METER_KEEP);
    }

    /// Zero every envelope, filter, smoothing and metering value while
    /// keeping the parameter snapshot.
    pub fn reset(&mut self)
        requires
            old(self).wf(),
        ensures
            final(self).wf(),
            final(self).sample_rate == old(self).sample_rate,
            final(self).params == old(self).params,
            chan_model_of(final(self).left) == (ChanModel { fast: 0, slow: 0, smoothed: 0,
                filter: 0, smooth: 0 }),
            chan_model_of(final(self).right) == (ChanModel { fast: 0, slow: 0, smoothed: 0,
                filter: 0, smooth: 0 }),
            final(self).gain_reduction == 0,
            final(self).transient_activity == 0,
    {
        self.left.detector.reset();
        self.right.detector.reset();
        self.left.oversampler.reset();
        self.right.oversampler.reset();
        self.left.smooth = 0;
        self.right.smooth = 0;
        self.gain_reduction = 0;
        self.transient_activity = 0;
    }

    /// The smoothed gain-reduction meter, for display.
    pub fn get_gain_reduction(&self) -> (r: i64)
        ensures
            r == self.gain_reduction,
    {
        self.gain_reduction
    }

    /// The smoothed transient-activity meter, for display.
    pub fn get_transient_activity(&self) -> (r: i64)
        ensures
            r == self.transient_activity,
    {
        self.transient_activity
    }
}

/// Run one channel's samples through the whole per-sample chain and
/// return the block's peak metered gain reduction and transient
/// activity.
fn process_channel(ch: &mut ChannelState, p: &PunchParameters, buf: &mut Vec<i64>) -> (peaks: (
    i64,
    i64,
))
    requires
        old(ch).wf(),
        p.wf(),
        old(ch).oversampler.factor == p.oversampling.factor_v(),
        old(buf).len() <= MAX_BLOCK_SIZE,
        forall|i: int| 0 <= i < old(buf).len() ==> -FX_CAP <= #[trigger] old(buf)[i] <= FX_CAP,
    ensures
        final(ch).wf(),
        final(ch).oversampler.factor == old(ch).oversampler.factor,
        final(ch).detector.fast_envelope.attack_coeff
            == old(ch).detector.fast_envelope.attack_coeff,
        final(ch).detector.fast_envelope.release_coeff
            == old(ch).detector.fast_envelope.release_coeff,
        final(ch).detector.slow_envelope.attack_coeff
            == old(ch).detector.slow_envelope.attack_coeff,
        final(ch).detector.slow_envelope.release_coeff
            == old(ch).detector.slow_envelope.release_coeff,
        final(ch).detector.sensitivity == old(ch).detector.sensitivity,
        final(ch).detector.smoothing_coeff == old(ch).detector.smoothing_coeff,
        final(buf).len() == old(buf).len(),
        ({
            let run = chan_run(block_params_of(*p, old(ch).detector), chan_model_of(*old(ch)),
                old(buf)@);
            &&& chan_model_of(*final(ch)) == run.st
            &&& forall|i: int|
                0 <= i < final(buf).len() ==> #[trigger] final(buf)[i] == run.ys[i]
            &&& peaks.0 == run.gr
            &&& peaks.1 == run.tr
        }),
        0 <= peaks.0 <= FX_CAP,
        0 <= peaks.1 <= FX_CAP,
{
    let ghost p_g: BlockParams = block_params_of(*p, old(ch).detector);
    let ghost st0: ChanModel = chan_model_of(*old(ch));
    let ghost xs: Seq<i64> = old(buf)@;
    let mut gr_peak: i64 = 0;
    let mut tr_peak: i64 = 0;
    let n: usize = buf.len();
    let mut idx: usize = 0;
    while idx < n
        invariant
            p.wf(),
            old(ch).wf(),
            ch.wf(),
            n == buf.len(),
            n == xs.len(),
            n <= MAX_BLOCK_SIZE,
            0 <= idx <= n,
            forall|i: int| 0 <= i < n ==> -FX_CAP <= #[trigger] xs[i] <= FX_CAP,
            forall|i: int| idx <= i < n ==> #[trigger] buf[i] == xs[i],
            ch.oversampler.factor == old(ch).oversampler.factor,
            ch.oversampler.factor == p.oversampling.factor_v(),
            ch.detector.fast_envelope.attack_coeff
                == old(ch).detector.fast_envelope.attack_coeff,
            ch.detector.fast_envelope.release_coeff
                == old(ch).detector.fast_envelope.release_coeff,
            ch.detector.slow_envelope.attack_coeff
                == old(ch).detector.slow_envelope.attack_coeff,
            ch.detector.slow_envelope.release_coeff
                == old(ch).detector.slow_envelope.release_coeff,
            ch.detector.sensitivity == old(ch).detector.sensitivity,
            ch.detector.smoothing_coeff == old(ch).detector.smoothing_coeff,
            p_g == block_params_of(*p, old(ch).detector),
            st0 == chan_model_of(*old(ch)),
            xs == old(buf)@,
            0 <= gr_peak <= FX_CAP,
            0 <= tr_peak <= FX_CAP,
            ({
                let run = chan_run(p_g, st0, xs.take(idx as int));
                &&& chan_model_of(*ch) == run.st
                &&& forall|i: int| 0 <= i < idx ==> #[trigger] buf[i] == run.ys[i]
                &&& gr_peak == run.gr
                &&& tr_peak == run.tr
            }),
            ch.oversampler.factor != 1 && idx > 0
                ==> ch.oversampler.downsample_buffer[idx - 1] == ch.oversampler.filter_state,
        decreases n - idx,
    {
        let ghost prev_run: ChanRun = chan_run(p_g, st0, xs.take(idx as int));
        let x: i64 = buf[idx];
        let out: (i64, i64, i64) = process_sample(ch, p, x, idx);
        buf.set(idx, out.0);
        if out.1 > gr_peak {
            gr_peak = out.1;
        }
        if out.2 > tr_peak {
            tr_peak = out.2;
        }
        proof {
            lemma_chan_run_len(p_g, st0, xs.take(idx as int));
            lemma_chan_run_len(p_g, st0, xs.take(idx as int + 1));
            assert(xs.take(idx as int + 1).drop_last() =~= xs.take(idx as int));
            assert(xs.take(idx as int + 1).last() == xs[idx as int]);
            assert(block_params_of(*p, ch.detector) == p_g);
        }
        idx = idx + 1;
    }
    proof {
        assert(xs.take(n as int) =~= xs);
        lemma_chan_run_len(p_g, st0, xs);
    }
    (gr_peak, tr_peak)
}

/// Run one host sample of one channel through gain, oversampling,
/// detection, clipping, shaping, smoothing, decimation and mixing.
/// Returns the output sample and the sample's two metering peaks.
fn process_sample(ch: &mut ChannelState, p: &PunchParameters, x: i64, idx: usize) -> (out: (
    i64,
    i64,
    i64,
))
    requires
        old(ch).wf(),
        p.wf(),
        old(ch).oversampler.factor == p.oversampling.factor_v(),
        -FX_CAP <= x <= FX_CAP,
        idx < MAX_BLOCK_SIZE,
        old(ch).oversampler.factor != 1 && idx > 0
            ==> old(ch).oversampler.downsample_buffer[idx - 1]
            == old(ch).oversampler.filter_state,
    ensures
        final(ch).wf(),
        final(ch).oversampler.factor == old(ch).oversampler.factor,
        final(ch).detector.fast_envelope.attack_coeff
            == old(ch).detector.fast_envelope.attack_coeff,
        final(ch).detector.fast_envelope.release_coeff
            == old(ch).detector.fast_envelope.release_coeff,
        final(ch).detector.slow_envelope.attack_coeff
            == old(ch).detector.slow_envelope.attack_coeff,
        final(ch).detector.slow_envelope.release_coeff
            == old(ch).detector.slow_envelope.release_coeff,
        final(ch).detector.sensitivity == old(ch).detector.sensitivity,
        final(ch).detector.smoothing_coeff == old(ch).detector.smoothing_coeff,
        ({
            let s = sample_step(block_params_of(*p, old(ch).detector),
                chan_model_of(*old(ch)), x as int);
            &&& chan_model_of(*final(ch)) == s.st
            &&& out.0 == s.y
            &&& out.1 == s.gr
            &&& out.2 == s.tr
        }),
        -FX_CAP <= out.0 <= FX_CAP,
        0 <= out.1 <= FX_CAP,
        0 <= out.2 <= FX_CAP,
        final(ch).oversampler.factor != 1 ==> final(ch).oversampler.downsample_buffer[
            idx as int] == final(ch).oversampler.filter_state,
{
    let ghost p_g: BlockParams = block_params_of(*p, old(ch).detector);
    let ghost st_a: ChanModel = chan_model_of(*old(ch));
    let gained: i64 = fx_mul(x, p.input_gain);
    proof {
        let idx_i: int = idx as int;
        let f_i: int = old(ch).oversampler.factor as int;
        assert((idx_i + 1) * f_i <= 8192 * 16) by (nonlinear_arith)
            requires
                idx_i + 1 <= 8192,
                1 <= f_i <= 16,
        ;
    }
    let taps: Vec<i64> = ch.oversampler.upsample(gained, idx);
    let ghost tapsv: Seq<int> = upsample_taps_v(st_a.filter, gained as int,
        old(ch).oversampler.factor as int);
    let ghost os_snap: Oversampler = ch.oversampler;
    let mut shaped_taps: Vec<i64> = Vec::new();
    let mut sample_gr: i64 = 0;
    let mut sample_tr: i64 = 0;
    let tap_count: usize = taps.len();
    let mut j: usize = 0;
    while j < tap_count
        invariant
            p.wf(),
            ch.detector.wf(),
            -FX_CAP <= ch.smooth <= FX_CAP,
            ch.oversampler == os_snap,
            os_snap.wf(),
            tap_count == taps.len(),
            tap_count == os_snap.factor,
            tapsv.len() == tap_count,
            0 <= j <= tap_count,
            forall|k: int| 0 <= k < tap_count ==> #[trigger] taps[k] == tapsv[k],
            forall|k: int| 0 <= k < tap_count ==> -FX_CAP <= #[trigger] taps[k] <= FX_CAP,
            ch.detector.fast_envelope.attack_coeff == p_g.fast_att,
            ch.detector.fast_envelope.release_coeff == p_g.fast_rel,
            ch.detector.slow_envelope.attack_coeff == p_g.slow_att,
            ch.detector.slow_envelope.release_coeff == p_g.slow_rel,
            ch.detector.sensitivity == p_g.sens,
            ch.detector.smoothing_coeff == p_g.det_coeff,
            p_g.threshold == p.clip_threshold as int,
            p_g.softness == p.softness as int,
            p_g.mode == p.clip_mode,
            p_g.attack == p.attack as int,
            p_g.sustain == p.sustain as int,
            shaped_taps.len() == j,
            0 <= sample_gr <= FX_CAP,
            0 <= sample_tr <= FX_CAP,
            ({
                let trun = taps_run(p_g, st_a, tapsv.take(j as int));
                &&& ch.detector.fast_envelope.envelope == trun.st.fast
                &&& ch.detector.slow_envelope.envelope == trun.st.slow
                &&& ch.detector.smoothed_transient == trun.st.smoothed
                &&& ch.smooth == trun.st.smooth
                &&& st_a.filter == trun.st.filter
                &&& forall|k: int| 0 <= k < j ==> #[trigger] shaped_taps[k] == trun.outs[k]
                &&& sample_gr == trun.gr
                &&& sample_tr == trun.tr
            }),
            forall|k: int| 0 <= k < j ==> -FX_CAP <= #[trigger] shaped_taps[k] <= FX_CAP,
        decreases tap_count - j,
    {
        let ghost trun_pre: TapsOut = taps_run(p_g, st_a, tapsv.take(j as int));
        let tap: i64 = taps[j];
        let transient: i64 = ch.detector.process(tap);
        let clipped: i64 = apply_clipping(tap, p.clip_threshold, p.softness, p.clip_mode);
        let tap_abs: i64 = if tap >= 0 {
            tap
        } else {
            -tap
        };
        let clip_abs: i64 = if clipped >= 0 {
            clipped
        } else {
            -clipped
        };
        let g: i64 = if tap_abs > GR_EPS {
            fx_div(tap_abs - clip_abs, tap_abs)
        } else {
            0
        };
        if g > sample_gr {
            sample_gr = g;
        }
        if transient > sample_tr {
            sample_tr = transient;
        }
        let shaped: i64 = apply_transient_shaping(clipped, transient, p.attack, p.sustain);
        ch.smooth = one_pole(ch.smooth, shaped, SHAPE_SMOOTH_KEEP);
        shaped_taps.push(ch.smooth);
        proof {
            let t = tap_step(p_g, trun_pre.st, tapsv[j as int]);
            lemma_taps_run_len(p_g, st_a, tapsv.take(j as int));
            assert(tapsv.take(j as int + 1).drop_last() =~= tapsv.take(j as int));
            assert(tapsv.take(j as int + 1).last() == tapsv[j as int]);
            assert(taps_run(p_g, st_a, tapsv.take(j as int + 1)) == (TapsOut {
                st: t.st,
                outs: trun_pre.outs.push(t.out),
                gr: fx_max(trun_pre.gr, t.gr),
                tr: fx_max(trun_pre.tr, t.tr),
            }));
        }
        j = j + 1;
    }
    proof {
        assert(tapsv.take(tap_count as int) =~= tapsv);
        lemma_taps_run_len(p_g, st_a, tapsv);
        let trun = taps_run(p_g, st_a, tapsv);
        assert forall|k: int|
            0 <= k < tap_count implies shaped_taps@.map_values(|v: i64| v as int)[k]
            == #[trigger] trun.outs[k] by {
            assert(shaped_taps[k] == trun.outs[k]);
        }
        assert(shaped_taps@.map_values(|v: i64| v as int) =~= trun.outs);
    }
    let processed: i64 = ch.oversampler.downsample(&shaped_taps, idx);
    let mixed: i64 = sat_add(fx_mul(gained, FX_ONE - p.mix), fx_mul(processed, p.mix));
    let y: i64 = fx_mul(mixed, p.output_gain);
    (y, sample_gr, sample_tr)
}

} // verus!
