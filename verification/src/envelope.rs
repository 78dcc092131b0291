//! A one-pole attack/release follower of a signal's rectified magnitude.

use vstd::prelude::*;
use crate::fixed::FX_ONE;
use crate::fixed::FX_CAP;
use crate::fixed::LOG2_E;
use crate::fixed::fx_abs;
use crate::fixed::tdiv;
use crate::fixed::one_pole_v;
use crate::fixed::one_pole;
use crate::fixed::exp2_v;
use crate::fixed::exp2_fx;
use crate::fixed::lemma_div_pos;
use crate::fixed::lemma_exp2_le_one;
use crate::fixed::lemma_one_pole_between;
use vstd::arithmetic::div_mod::lemma_div_is_ordered;

verus! {

/// Largest accepted rate or time argument (2^28 in Q16), so that every
/// intermediate of the coefficient formula fits its machine word.
pub const RATE_MAX: i64 = 17592186044416;

/// `1000 * FX_ONE^3`: the numerator of `1 / (t_ms * 0.001 * rate)` once
/// both factors carry a Q16 scale.
pub const COEFF_NUM: i64 = 281474976710656000;

/// The smoothing coefficient derived from a time constant in milliseconds
/// and a rate in samples per second: `e^(-1 / (t_ms * 0.001 * rate))`, or
/// one for non-positive times.
pub open spec fn time_to_coeff_v(time_ms: int, rate: int) -> int {
    if time_ms <= 0 {
        FX_ONE as int
    } else {
        let u = tdiv(COEFF_NUM as int, time_ms * rate);
        exp2_v(-tdiv(u * LOG2_E, FX_ONE as int))
    }
}

/// The envelope after one sample: the rectified input is blended in with
/// the attack coefficient while rising and the release coefficient while
/// falling.
pub open spec fn env_step_v(env: int, att: int, rel: int, x: int) -> int {
    let level = fx_abs(x);
    let coeff = if level > env {
        att
    } else {
        rel
    };
    one_pole_v(env, level, coeff)
}

/// One-pole smoother of a rectified signal with separate attack and
/// release time constants.
pub struct EnvelopeFollower {
    /// The current envelope value, never negative.
    pub envelope: i64,
    /// Per-sample smoothing coefficient while the level rises.
    pub attack_coeff: i64,
    /// Per-sample smoothing coefficient while the level falls.
    pub release_coeff: i64,
}

impl EnvelopeFollower {
    /// The follower's invariant: the envelope is a bounded non-negative
    /// amplitude and both coefficients are fractions of one.
    pub open spec fn wf(self) -> bool {
        &&& 0 <= self.envelope <= FX_CAP
        &&& 0 <= self.attack_coeff <= FX_ONE
        &&& 0 <= self.release_coeff <= FX_ONE
    }

    /// A fresh follower at zero with coefficients for the given times.
    pub fn new(sample_rate: i64, attack_ms: i64, release_ms: i64) -> (r: Self)
        requires
            1 <= sample_rate <= RATE_MAX,
            attack_ms <= RATE_MAX,
            release_ms <= RATE_MAX,
        ensures
            r.wf(),
            r.envelope == 0,
            r.attack_coeff == time_to_coeff_v(attack_ms as int, sample_rate as int),
            r.release_coeff == time_to_coeff_v(release_ms as int, sample_rate as int),
    {
        EnvelopeFollower {
            envelope: 0,
            attack_coeff: time_to_coeff(attack_ms, sample_rate),
            release_coeff: time_to_coeff(release_ms, sample_rate),
        }
    }

    /// Recompute both coefficients for a new rate or new times.
    pub fn update_times(&mut self, sample_rate: i64, attack_ms: i64, release_ms: i64)
        requires
            old(self).wf(),
            1 <= sample_rate <= RATE_MAX,
            attack_ms <= RATE_MAX,
            release_ms <= RATE_MAX,
        ensures
            final(self).wf(),
            final(self).envelope == old(self).envelope,
            final(self).attack_coeff == time_to_coeff_v(attack_ms as int, sample_rate as int),
            final(self).release_coeff == time_to_coeff_v(release_ms as int, sample_rate as int),
    {
        self.attack_coeff = time_to_coeff(attack_ms, sample_rate);
        self.release_coeff = time_to_coeff(release_ms, sample_rate);
    }

    /// Advance the envelope by one sample of input and return it.
    pub fn process(&mut self, input: i64) -> (r: i64)
        requires
            old(self).wf(),
            -FX_CAP <= input <= FX_CAP,
        ensures
            final(self).wf(),
            final(self).attack_coeff == old(self).attack_coeff,
            final(self).release_coeff == old(self).release_coeff,
            final(self).envelope == env_step_v(old(self).envelope as int,
                old(self).attack_coeff as int, old(self).release_coeff as int, input as int),
            r == final(self).envelope,
            0 <= final(self).envelope,
    {
        let level: i64 = if input >= 0 {
            input
        } else {
            -input
        };
        let coeff: i64 = if level > self.envelope {
            self.attack_coeff
        } else {
            self.release_coeff
        };
        self.envelope = one_pole(self.envelope, level, coeff);
        self.envelope
    }

    /// Forget all signal history.
    pub fn reset(&mut self)
        requires
            old(self).wf(),
        ensures
            final(self).wf(),
            final(self).envelope == 0,
            final(self).attack_coeff == old(self).attack_coeff,
            final(self).release_coeff == old(self).release_coeff,
    {
        self.envelope = 0;
    }
}

/// A cleared envelope fed silence stays cleared.
pub proof fn lemma_env_step_v_zero(att: int, rel: int)
    ensures
        env_step_v(0, att, rel, 0) == 0,
{
    crate::fixed::lemma_one_pole_v_zero(rel);
}

/// Driven by a level at or above its current value, the envelope rises
/// monotonically and never overshoots that level; so under a sustained
/// constant input it climbs toward the input's magnitude and stays there.
pub proof fn lemma_envelope_rises(env: int, att: int, rel: int, x: int)
    requires
        0 <= env <= FX_CAP as int,
        0 <= att <= FX_ONE as int,
        0 <= rel <= FX_ONE as int,
        -(FX_CAP as int) <= x <= FX_CAP as int,
        env <= fx_abs(x),
    ensures
        env <= env_step_v(env, att, rel, x) <= fx_abs(x),
{
    lemma_one_pole_between(env, fx_abs(x), if fx_abs(x) > env { att } else { rel });
}

/// The envelope after `n` samples of one repeated input.
pub open spec fn env_iter_v(env: int, att: int, rel: int, x: int, n: nat) -> int
    decreases n,
{
    if n == 0 {
        env
    } else {
        env_step_v(env_iter_v(env, att, rel, x, (n - 1) as nat), att, rel, x)
    }
}

/// Under a sustained constant input at or above the starting envelope,
/// the envelope rises monotonically with every further sample and never
/// overshoots the input's magnitude, however long the input lasts.
pub proof fn lemma_envelope_run_rises(env: int, att: int, rel: int, x: int, n: nat)
    requires
        0 <= env <= FX_CAP as int,
        0 <= att <= FX_ONE as int,
        0 <= rel <= FX_ONE as int,
        -(FX_CAP as int) <= x <= FX_CAP as int,
        env <= fx_abs(x),
    ensures
        env_iter_v(env, att, rel, x, n) <= env_iter_v(env, att, rel, x, n + 1),
        env <= env_iter_v(env, att, rel, x, n) <= fx_abs(x),
    decreases n,
{
    if n == 0 {
        lemma_envelope_rises(env, att, rel, x);
    } else {
        lemma_envelope_run_rises(env, att, rel, x, (n - 1) as nat);
        lemma_envelope_rises(env_iter_v(env, att, rel, x, (n - 1) as nat), att, rel, x);
        lemma_envelope_rises(env_iter_v(env, att, rel, x, n), att, rel, x);
    }
}

/// The smoothing coefficient for a time constant and a rate.
pub fn time_to_coeff(time_ms: i64, rate: i64) -> (r: i64)
    requires
        1 <= rate <= RATE_MAX,
        time_ms <= RATE_MAX,
    ensures
        r == time_to_coeff_v(time_ms as int, rate as int),
        0 <= r <= FX_ONE,
{
    if time_ms <= 0 {
        FX_ONE
    } else {
        proof {
            assert(1 <= (time_ms as int) * (rate as int)
                <= (RATE_MAX as int) * (RATE_MAX as int)) by (nonlinear_arith)
                requires
                    1 <= time_ms <= RATE_MAX,
                    1 <= rate <= RATE_MAX,
            ;
            lemma_div_pos(COEFF_NUM as int, (time_ms as int) * (rate as int));
        }
        let prod: i128 = (time_ms as i128) * (rate as i128);
        let u: i64 = ((COEFF_NUM as u128) / (prod as u128)) as i64;
        proof {
            assert(0 <= (u as int) * LOG2_E <= (COEFF_NUM as int) * LOG2_E)
                by (nonlinear_arith)
                requires
                    0 <= u <= COEFF_NUM,
                    LOG2_E == 94548i64,
            ;
            lemma_div_is_ordered((u as int) * LOG2_E, (COEFF_NUM as int) * LOG2_E, 65536);
            lemma_div_pos((u as int) * LOG2_E, 65536);
        }
        let w: u128 = ((u as u128) * 94548u128) / 65536u128;
        let y: i64 = -(w as i64);
        let c: i64 = exp2_fx(y);
        proof {
            lemma_exp2_le_one(y as int);
        }
        c
    }
}

} // verus!
