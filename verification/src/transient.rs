//! Transient detection as the divergence of a fast and a slow envelope.

use vstd::prelude::*;
use crate::fixed::FX_ONE;
use crate::fixed::FX_CAP;
use crate::fixed::fx_div_v;
use crate::fixed::fx_mul_v;
use crate::fixed::one_pole_v;
use crate::fixed::fx_div;
use crate::fixed::fx_mul;
use crate::fixed::one_pole;
use crate::fixed::lemma_fx_mul_v_bounds;
use crate::fixed::lemma_one_pole_between;
use crate::envelope::EnvelopeFollower;
use crate::envelope::RATE_MAX;
use crate::envelope::env_step_v;
use crate::envelope::time_to_coeff_v;
use crate::envelope::time_to_coeff;

verus! {

/// Below this slow-envelope level (about 1e-4) the signal counts as
/// silence and the divergence is forced to zero.
pub const SILENCE_EPS: i64 = 7;

/// `0.1` in Q16: the fast follower attacks in a tenth of the attack time.
pub const FAST_ATTACK_SCALE: i64 = 6554;

/// `0.2` in Q16: the slow follower attacks in a fifth of the release time.
pub const SLOW_ATTACK_SCALE: i64 = 13107;

/// `0.5` ms in Q16: the fresh fast follower's attack time.
pub const INIT_FAST_ATTACK_MS: i64 = 32768;

/// `5` ms in Q16: the fresh fast follower's release time.
pub const INIT_FAST_RELEASE_MS: i64 = 327680;

/// `20` ms in Q16: the fresh slow follower's attack time.
pub const INIT_SLOW_ATTACK_MS: i64 = 1310720;

/// `100` ms in Q16: the fresh slow follower's release time.
pub const INIT_SLOW_RELEASE_MS: i64 = 6553600;

/// `2` ms in Q16: the fresh detector's output smoothing time.
pub const INIT_SMOOTH_MS: i64 = 131072;

/// `1` ms in Q16: the output smoothing time after a parameter update.
pub const UPDATE_SMOOTH_MS: i64 = 65536;

/// The raw divergence of the two envelopes: how far the fast envelope has
/// risen above the slow one, relative to the slow one, floored at zero and
/// forced to zero in silence.
pub open spec fn det_raw_v(fast: int, slow: int) -> int {
    if slow > SILENCE_EPS {
        let q = fx_div_v(fast - slow, slow);
        if q < 0 {
            0
        } else {
            q
        }
    } else {
        0
    }
}

/// The smoothed transient after one sample, from the two already-advanced
/// envelopes: the raw divergence is scaled by four times the sensitivity
/// and blended into the smoothed value.
pub open spec fn det_smooth_v(smoothed: int, coeff: int, sens: int, fast: int, slow: int) -> int {
    one_pole_v(smoothed, fx_mul_v(det_raw_v(fast, slow), 4 * sens), coeff)
}

/// A cleared detector hearing silence registers nothing.
pub proof fn lemma_det_smooth_v_zero(coeff: int, sens: int)
    ensures
        det_smooth_v(0, coeff, sens, 0, 0) == 0,
{
    crate::fixed::lemma_fx_mul_v_zero(4 * sens);
    crate::fixed::lemma_one_pole_v_zero(coeff);
}

/// Differential envelope transient detector.
pub struct TransientDetector {
    /// Fast follower: captures the onset.
    pub fast_envelope: EnvelopeFollower,
    /// Slow follower: captures the body.
    pub slow_envelope: EnvelopeFollower,
    /// How strongly divergence registers, a fraction of one.
    pub sensitivity: i64,
    /// The smoothed transient amount, never negative.
    pub smoothed_transient: i64,
    /// Coefficient of the anti-click output smoother.
    pub smoothing_coeff: i64,
}

impl TransientDetector {
    /// The detector's invariant.
    pub open spec fn wf(self) -> bool {
        &&& self.fast_envelope.wf()
        &&& self.slow_envelope.wf()
        &&& 0 <= self.sensitivity <= FX_ONE
        &&& 0 <= self.smoothed_transient <= FX_CAP
        &&& 0 <= self.smoothing_coeff <= FX_ONE
    }

    /// A fresh detector: half-millisecond against twenty-millisecond
    /// attacks, half sensitivity, and a two-millisecond output smoother.
    pub fn new(sample_rate: i64) -> (r: Self)
        requires
            1 <= sample_rate <= RATE_MAX,
        ensures
            r.wf(),
            r.fast_envelope.envelope == 0,
            r.slow_envelope.envelope == 0,
            r.fast_envelope.attack_coeff == time_to_coeff_v(INIT_FAST_ATTACK_MS as int,
                sample_rate as int),
            r.fast_envelope.release_coeff == time_to_coeff_v(INIT_FAST_RELEASE_MS as int,
                sample_rate as int),
            r.slow_envelope.attack_coeff == time_to_coeff_v(INIT_SLOW_ATTACK_MS as int,
                sample_rate as int),
            r.slow_envelope.release_coeff == time_to_coeff_v(INIT_SLOW_RELEASE_MS as int,
                sample_rate as int),
            r.sensitivity == 32768,
            r.smoothed_transient == 0,
            r.smoothing_coeff == time_to_coeff_v(INIT_SMOOTH_MS as int, sample_rate as int),
    {
        TransientDetector {
            fast_envelope: EnvelopeFollower::new(sample_rate, INIT_FAST_ATTACK_MS,
                INIT_FAST_RELEASE_MS),
            slow_envelope: EnvelopeFollower::new(sample_rate, INIT_SLOW_ATTACK_MS,
                INIT_SLOW_RELEASE_MS),
            sensitivity: 32768,
            smoothed_transient: 0,
            smoothing_coeff: time_to_coeff(INIT_SMOOTH_MS, sample_rate),
        }
    }

    /// Retune both followers and the output smoother.  The fast follower
    /// tracks a tenth of the attack time, the slow follower a fifth of the
    /// release time.
    pub fn update_parameters(
        &mut self,
        sample_rate: i64,
        attack_time_ms: i64,
        release_time_ms: i64,
        sensitivity: i64,
    )
        requires
            old(self).wf(),
            1 <= sample_rate <= RATE_MAX,
            0 <= attack_time_ms <= RATE_MAX,
            0 <= release_time_ms <= RATE_MAX,
            0 <= sensitivity <= FX_ONE,
        ensures
            final(self).wf(),
            final(self).fast_envelope.envelope == old(self).fast_envelope.envelope,
            final(self).slow_envelope.envelope == old(self).slow_envelope.envelope,
            final(self).smoothed_transient == old(self).smoothed_transient,
            final(self).fast_envelope.attack_coeff == time_to_coeff_v(
                fx_mul_v(attack_time_ms as int, FAST_ATTACK_SCALE as int), sample_rate as int),
            final(self).fast_envelope.release_coeff == time_to_coeff_v(attack_time_ms as int,
                sample_rate as int),
            final(self).slow_envelope.attack_coeff == time_to_coeff_v(
                fx_mul_v(release_time_ms as int, SLOW_ATTACK_SCALE as int), sample_rate as int),
            final(self).slow_envelope.release_coeff == time_to_coeff_v(release_time_ms as int,
                sample_rate as int),
            final(self).sensitivity == sensitivity,
            final(self).smoothing_coeff == time_to_coeff_v(UPDATE_SMOOTH_MS as int,
                sample_rate as int),
    {
        proof {
            lemma_fx_mul_v_bounds(attack_time_ms as int, FAST_ATTACK_SCALE as int);
            lemma_fx_mul_v_bounds(release_time_ms as int, SLOW_ATTACK_SCALE as int);
        }
        let fast_attack: i64 = fx_mul(attack_time_ms, FAST_ATTACK_SCALE);
        self.fast_envelope.update_times(sample_rate, fast_attack, attack_time_ms);
        let slow_attack: i64 = fx_mul(release_time_ms, SLOW_ATTACK_SCALE);
        self.slow_envelope.update_times(sample_rate, slow_attack, release_time_ms);
        self.sensitivity = sensitivity;
        self.smoothing_coeff = time_to_coeff(UPDATE_SMOOTH_MS, sample_rate);
    }

    /// Advance both envelopes by one sample and return the smoothed
    /// transient amount.
    pub fn process(&mut self, input: i64) -> (r: i64)
        requires
            old(self).wf(),
            -FX_CAP <= input <= FX_CAP,
        ensures
            final(self).wf(),
            final(self).fast_envelope.envelope == env_step_v(
                old(self).fast_envelope.envelope as int,
                old(self).fast_envelope.attack_coeff as int,
                old(self).fast_envelope.release_coeff as int, input as int),
            final(self).slow_envelope.envelope == env_step_v(
                old(self).slow_envelope.envelope as int,
                old(self).slow_envelope.attack_coeff as int,
                old(self).slow_envelope.release_coeff as int, input as int),
            final(self).smoothed_transient == det_smooth_v(
                old(self).smoothed_transient as int, old(self).smoothing_coeff as int,
                old(self).sensitivity as int, final(self).fast_envelope.envelope as int,
                final(self).slow_envelope.envelope as int),
            final(self).fast_envelope.attack_coeff == old(self).fast_envelope.attack_coeff,
            final(self).fast_envelope.release_coeff == old(self).fast_envelope.release_coeff,
            final(self).slow_envelope.attack_coeff == old(self).slow_envelope.attack_coeff,
            final(self).slow_envelope.release_coeff == old(self).slow_envelope.release_coeff,
            final(self).sensitivity == old(self).sensitivity,
            final(self).smoothing_coeff == old(self).smoothing_coeff,
            r == final(self).smoothed_transient,
            0 <= r,
    {
        let fast: i64 = self.fast_envelope.process(input);
        let slow: i64 = self.slow_envelope.process(input);
        let raw: i64 = if slow > SILENCE_EPS {
            let q: i64 = fx_div(fast - slow, slow);
            if q < 0 {
                0
            } else {
                q
            }
        } else {
            0
        };
        let scaled: i64 = fx_mul(raw, 4 * self.sensitivity);
        proof {
            lemma_fx_mul_v_bounds(raw as int, 4 * old(self).sensitivity as int);
            lemma_one_pole_between(old(self).smoothed_transient as int, scaled as int,
                old(self).smoothing_coeff as int);
        }
        self.smoothed_transient = one_pole(self.smoothed_transient, scaled,
            self.smoothing_coeff);
        self.smoothed_transient
    }

    /// Forget all signal history.
    pub fn reset(&mut self)
        requires
            old(self).wf(),
        ensures
            final(self).wf(),
            final(self).fast_envelope.envelope == 0,
            final(self).slow_envelope.envelope == 0,
            final(self).smoothed_transient == 0,
            final(self).fast_envelope.attack_coeff == old(self).fast_envelope.attack_coeff,
            final(self).fast_envelope.release_coeff == old(self).fast_envelope.release_coeff,
            final(self).slow_envelope.attack_coeff == old(self).slow_envelope.attack_coeff,
            final(self).slow_envelope.release_coeff == old(self).slow_envelope.release_coeff,
            final(self).sensitivity == old(self).sensitivity,
            final(self).smoothing_coeff == old(self).smoothing_coeff,
    {
        self.fast_envelope.reset();
        self.slow_envelope.reset();
        self.smoothed_transient = 0;
    }
}

} // verus!
