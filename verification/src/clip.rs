//! The stateless clipping transfer functions and their mode dispatcher.

use vstd::prelude::*;
use crate::fixed::FX_ONE;
use crate::fixed::FX_CAP;
use crate::fixed::GAIN_MAX;
use crate::fixed::fx_abs;
use crate::fixed::fx_mul_v;
use crate::fixed::fx_div_v;
use crate::fixed::one_pole_v;
use crate::fixed::tanh_v;
use crate::fixed::fx_mul;
use crate::fixed::fx_div;
use crate::fixed::one_pole;
use crate::fixed::tanh_fx;
use crate::fixed::tdiv128;
use crate::fixed::lemma_div_pos;
use crate::fixed::lemma_tdiv_monotone;
use crate::fixed::lemma_fx_mul_v_monotone;
use crate::fixed::lemma_fx_mul_v_bounds;
use crate::fixed::lemma_fx_div_v_monotone;
use crate::fixed::lemma_fx_div_v_nonneg;
use vstd::arithmetic::div_mod::lemma_div_is_ordered;

verus! {

/// `0.3` in Q16: how strongly softness pulls the tanh knee down.
pub const KNEE_TANH_SCALE: i64 = 19661;

/// `0.5` in Q16: how strongly softness pulls the cubic knee down, and the
/// floor applied to softness by the soft and cubic modes.
pub const FX_HALF: i64 = 32768;

/// `1.5` in Q16: the slope restoring the cubic segment to the full range.
pub const FX_THREE_HALVES: i64 = 98304;

/// The small amplitude guard (about 1e-4) that keeps the cubic knee span
/// positive.
pub const FX_EPS: i64 = 7;

/// `0.01` in Q16: above this softness the hard mode blends in the tanh
/// curve.
pub const BLEND_MIN: i64 = 655;

/// The cubic segment's value from one knee span onward: `2/3` in Q16.
pub const CUBIC_LIMIT: i64 = 43690;

/// `3 * FX_ONE * FX_ONE`: the denominator of the cubic segment.
pub const CUBIC_DEN: i64 = 12884901888;

/// The selectable clipping transfer functions.
#[derive(Clone, Copy, PartialEq, Eq, Structural, Debug)]
pub enum ClipMode {
    /// Plain clamping at the threshold.
    Hard,
    /// Saturation through a normalized hyperbolic tangent.
    Soft,
    /// A polynomial segment between the knee and a hard limit.
    Cubic,
}

impl Default for ClipMode {
    /// The hard curve is the default mode.
    fn default() -> (r: Self)
        ensures
            r == ClipMode::Hard,
    {
        ClipMode::Hard
    }
}

/// Clamping at `threshold`: the identity inside the band, the band edge
/// outside it.
pub open spec fn hard_clip_v(x: int, t: int) -> int {
    if x > t {
        t
    } else if x < -t {
        -t
    } else {
        x
    }
}

/// The tanh curve: pass-through below the knee, then the input is
/// normalized, driven, saturated and rescaled so the curve approaches the
/// threshold from below.
pub open spec fn soft_clip_tanh_v(x: int, t: int, s: int) -> int {
    let knee = fx_mul_v(t, FX_ONE - fx_mul_v(s, KNEE_TANH_SCALE as int));
    if fx_abs(x) < knee {
        x
    } else {
        let drive = FX_ONE + 2 * s;
        let saturated = fx_div_v(tanh_v(fx_mul_v(fx_div_v(x, t), drive)), tanh_v(drive));
        fx_mul_v(saturated, t)
    }
}

/// The cubic segment `u - u^3/3`, evaluated as one rational
/// `u * (3 - u^2) / 3` over Q16 so that one division carries all rounding.
pub open spec fn cubic_core_v(u: int) -> int {
    (u * (CUBIC_DEN - u * u)) / (CUBIC_DEN as int)
}

/// The cubic curve: pass-through below the knee, then a normalized cubic
/// segment up to one knee span, and a hard limit beyond it.
pub open spec fn soft_clip_cubic_v(x: int, t: int, s: int) -> int {
    let knee = fx_mul_v(t, FX_ONE - fx_mul_v(s, FX_HALF as int));
    if fx_abs(x) < knee {
        x
    } else {
        let u_raw = fx_div_v(fx_abs(x) - knee, t - knee + FX_EPS);
        let u = if u_raw > 2 * FX_ONE {
            2 * FX_ONE as int
        } else {
            u_raw
        };
        let c = if u < FX_ONE {
            cubic_core_v(u)
        } else {
            CUBIC_LIMIT as int
        };
        let scaled = fx_mul_v(fx_mul_v(c, t - knee), FX_THREE_HALVES as int);
        if x >= 0 {
            knee + scaled
        } else {
            -(knee + scaled)
        }
    }
}

/// The dispatcher: hard mode blends in the tanh curve once softness is
/// audible, the soft and cubic modes floor softness at one half.
pub open spec fn apply_clipping_v(x: int, t: int, s: int, mode: ClipMode) -> int {
    match mode {
        ClipMode::Hard => {
            if s > BLEND_MIN {
                one_pole_v(hard_clip_v(x, t), soft_clip_tanh_v(x, t, s), FX_ONE - s)
            } else {
                hard_clip_v(x, t)
            }
        },
        ClipMode::Soft => soft_clip_tanh_v(x, t, if s < FX_HALF { FX_HALF as int } else { s }),
        ClipMode::Cubic => soft_clip_cubic_v(x, t, if s < FX_HALF { FX_HALF as int } else { s }),
    }
}

/// Clamp `input` into `[-threshold, threshold]`.
///
/// Inputs inside the band pass through unchanged; inputs outside it come
/// back as the signed threshold.
pub fn hard_clip(input: i64, threshold: i64) -> (r: i64)
    requires
        0 <= threshold <= FX_CAP,
        -FX_CAP <= input <= FX_CAP,
    ensures
        r == hard_clip_v(input as int, threshold as int),
        fx_abs(input as int) <= threshold ==> r == input,
        input > threshold ==> r == threshold,
        input < -threshold ==> r == -threshold,
        -threshold <= r <= threshold,
{
    if input > threshold {
        threshold
    } else if input < -threshold {
        -threshold
    } else {
        input
    }
}

/// The tanh saturation curve at `threshold` with the given softness.
pub fn soft_clip_tanh(input: i64, threshold: i64, softness: i64) -> (r: i64)
    requires
        1 <= threshold <= GAIN_MAX,
        0 <= softness <= FX_ONE,
        -FX_CAP <= input <= FX_CAP,
    ensures
        r == soft_clip_tanh_v(input as int, threshold as int, softness as int),
        -FX_CAP <= r <= FX_CAP,
        input == 0 ==> r == 0,
{
    let knee: i64 = fx_mul(threshold, FX_ONE - fx_mul(softness, KNEE_TANH_SCALE));
    let a: i64 = if input >= 0 {
        input
    } else {
        -input
    };
    if a < knee {
        input
    } else {
        let normalized: i64 = fx_div(input, threshold);
        let drive: i64 = FX_ONE + 2 * softness;
        let tn: i64 = tanh_fx(fx_mul(normalized, drive));
        let td: i64 = tanh_fx(drive);
        let saturated: i64 = fx_div(tn, td);
        proof {
            if input == 0 {
                vstd::arithmetic::div_mod::lemma_div_of0(threshold as int);
                assert(fx_div_v(0, threshold as int) == 0);
                assert(fx_mul_v(0, drive as int) == 0) by {
                    vstd::arithmetic::div_mod::lemma_div_of0(FX_ONE as int);
                }
                assert(fx_div_v(0, td as int) == 0) by {
                    vstd::arithmetic::div_mod::lemma_div_of0(td as int);
                }
                assert(fx_mul_v(0, threshold as int) == 0) by {
                    vstd::arithmetic::div_mod::lemma_div_of0(FX_ONE as int);
                }
            }
        }
        fx_mul(saturated, threshold)
    }
}

/// The cubic segment shared by `soft_clip_cubic` and its monotonicity
/// argument.
fn cubic_core(u: i64) -> (c: i64)
    requires
        0 <= u < FX_ONE,
    ensures
        c == cubic_core_v(u as int),
        0 <= c <= u,
{
    proof {
        assert(0 <= (u as int) * (u as int) < 4294967296) by (nonlinear_arith)
            requires
                0 <= u < 65536,
        ;
    }
    let uu: i64 = u * u;
    proof {
        assert(0 <= (u as int) * (12884901888 - (uu as int)) <= 65535int * 12884901888)
            by (nonlinear_arith)
            requires
                0 <= u < 65536,
                0 <= uu < 4294967296,
        ;
    }
    let num: i128 = (u as i128) * ((CUBIC_DEN as i128) - (uu as i128));
    proof {
        assert(num as int <= (u as int) * (CUBIC_DEN as int)) by (nonlinear_arith)
            requires
                num as int == (u as int) * (12884901888 - (uu as int)),
                uu as int == (u as int) * (u as int),
                0 <= u < 65536,
                0 <= uu,
        ;
        lemma_div_pos(num as int, CUBIC_DEN as int);
        lemma_div_is_ordered(num as int, (u as int) * (CUBIC_DEN as int), CUBIC_DEN as int);
        vstd::arithmetic::div_mod::lemma_div_multiples_vanish(u as int, CUBIC_DEN as int);
        assert((u as int) * (CUBIC_DEN as int) == (CUBIC_DEN as int) * (u as int))
            by (nonlinear_arith);
    }
    let q: i128 = tdiv128(num, CUBIC_DEN as i128);
    q as i64
}

/// The cubic saturation curve at `threshold` with the given softness.
pub fn soft_clip_cubic(input: i64, threshold: i64, softness: i64) -> (r: i64)
    requires
        1 <= threshold <= GAIN_MAX,
        0 <= softness <= FX_ONE,
        -FX_CAP <= input <= FX_CAP,
    ensures
        r == soft_clip_cubic_v(input as int, threshold as int, softness as int),
        -FX_CAP <= r <= FX_CAP,
        input == 0 ==> r == 0,
{
    proof {
        lemma_fx_mul_v_bounds(softness as int, FX_HALF as int);
        lemma_fx_mul_v_bounds(threshold as int,
            FX_ONE - fx_mul_v(softness as int, FX_HALF as int));
    }
    let knee: i64 = fx_mul(threshold, FX_ONE - fx_mul(softness, FX_HALF));
    let a: i64 = if input >= 0 {
        input
    } else {
        -input
    };
    if a < knee {
        input
    } else {
        proof {
            if input == 0 {
                vstd::arithmetic::div_mod::lemma_div_of0(
                    threshold as int - knee + FX_EPS);
            }
            lemma_fx_div_v_nonneg(a as int - knee, threshold as int - knee + FX_EPS);
        }
        let u_raw: i64 = fx_div(a - knee, threshold - knee + FX_EPS);
        let u: i64 = if u_raw > 2 * FX_ONE {
            2 * FX_ONE
        } else {
            u_raw
        };
        let c: i64 = if u < FX_ONE {
            cubic_core(u)
        } else {
            CUBIC_LIMIT
        };
        let half_range: i64 = fx_mul(c, threshold - knee);
        proof {
            assert((c as int) * (threshold as int - knee)
                == (threshold as int - knee) * (c as int)) by (nonlinear_arith);
            lemma_fx_mul_v_bounds(threshold as int - knee, c as int);
        }
        let scaled: i64 = fx_mul(half_range, FX_THREE_HALVES);
        proof {
            lemma_fx_mul_v_bounds(half_range as int, FX_THREE_HALVES as int);
            assert((half_range as int) * (FX_THREE_HALVES as int)
                <= (2 * half_range as int) * FX_ONE) by (nonlinear_arith)
                requires
                    0 <= half_range,
                    FX_THREE_HALVES == 98304i64,
                    FX_ONE == 65536,
            ;
            lemma_tdiv_monotone((half_range as int) * (FX_THREE_HALVES as int),
                (2 * half_range as int) * FX_ONE, FX_ONE as int);
            vstd::arithmetic::div_mod::lemma_div_multiples_vanish(
                2 * half_range as int, FX_ONE as int);
            assert((2 * half_range as int) * FX_ONE
                == (FX_ONE as int) * (2 * half_range as int)) by (nonlinear_arith);
            if input == 0 {
                assert((c as int) * (threshold as int - knee) == 0) by (nonlinear_arith)
                    requires
                        c as int == 0,
                ;
                assert((half_range as int) * (FX_THREE_HALVES as int) == 0)
                    by (nonlinear_arith)
                    requires
                        half_range as int == 0,
                ;
            }
        }
        if input >= 0 {
            knee + scaled
        } else {
            -(knee + scaled)
        }
    }
}

/// Every transfer curve maps silence to silence.
pub proof fn lemma_apply_clipping_v_zero(t: int, s: int, mode: ClipMode)
    requires
        1 <= t <= GAIN_MAX as int,
        0 <= s <= FX_ONE as int,
    ensures
        apply_clipping_v(0, t, s, mode) == 0,
{
    let sf = if s < FX_HALF { FX_HALF as int } else { s };
    lemma_soft_clip_tanh_v_zero(t, s);
    lemma_soft_clip_tanh_v_zero(t, sf);
    lemma_soft_clip_cubic_v_zero(t, sf);
    match mode {
        ClipMode::Hard => {
            if s > BLEND_MIN {
                crate::fixed::lemma_one_pole_v_zero(FX_ONE - s);
            }
        },
        ClipMode::Soft => {
        },
        ClipMode::Cubic => {
        },
    }
}

/// The tanh curve maps silence to silence.
proof fn lemma_soft_clip_tanh_v_zero(t: int, s: int)
    requires
        1 <= t <= GAIN_MAX as int,
        0 <= s <= FX_ONE as int,
    ensures
        soft_clip_tanh_v(0, t, s) == 0,
{
    let knee = fx_mul_v(t, FX_ONE - fx_mul_v(s, KNEE_TANH_SCALE as int));
    if fx_abs(0) < knee {
    } else {
        let drive = FX_ONE + 2 * s;
        crate::fixed::lemma_fx_div_v_zero(t);
        crate::fixed::lemma_fx_mul_v_zero(drive);
        crate::fixed::lemma_tanh_v_zero();
        crate::fixed::lemma_tanh_v_ge_one(drive);
        crate::fixed::lemma_fx_div_v_zero(tanh_v(drive));
        crate::fixed::lemma_fx_mul_v_zero(t);
    }
}

/// The cubic curve maps silence to silence.
proof fn lemma_soft_clip_cubic_v_zero(t: int, s: int)
    requires
        1 <= t <= GAIN_MAX as int,
        0 <= s <= FX_ONE as int,
    ensures
        soft_clip_cubic_v(0, t, s) == 0,
{
    lemma_fx_mul_v_bounds(s, FX_HALF as int);
    lemma_fx_mul_v_bounds(t, FX_ONE - fx_mul_v(s, FX_HALF as int));
    let knee = fx_mul_v(t, FX_ONE - fx_mul_v(s, FX_HALF as int));
    if fx_abs(0) < knee {
    } else {
        crate::fixed::lemma_fx_div_v_zero(t - knee + FX_EPS);
        assert(cubic_core_v(0) == 0);
        crate::fixed::lemma_fx_mul_v_zero(t - knee);
        crate::fixed::lemma_fx_mul_v_zero(FX_THREE_HALVES as int);
    }
}

/// The cubic segment grows with its argument over the knee span.
proof fn lemma_cubic_core_v_monotone(u1: int, u2: int)
    requires
        0 <= u1 <= u2 <= FX_ONE,
    ensures
        0 <= cubic_core_v(u1) <= cubic_core_v(u2),
{
    let d: int = CUBIC_DEN as int;
    let f1 = u1 * (d - u1 * u1);
    let f2 = u2 * (d - u2 * u2);
    assert(f2 - f1 == (u2 - u1) * (d - (u1 * u1 + u1 * u2 + u2 * u2))) by (nonlinear_arith)
        requires
            f1 == u1 * (d - u1 * u1),
            f2 == u2 * (d - u2 * u2),
    ;
    assert(0 <= f1 && f1 <= f2) by (nonlinear_arith)
        requires
            0 <= u1 <= u2 <= 65536,
            d == 12884901888,
            f1 == u1 * (d - u1 * u1),
            f2 - f1 == (u2 - u1) * (d - (u1 * u1 + u1 * u2 + u2 * u2)),
    ;
    lemma_div_pos(f1, d);
    lemma_div_is_ordered(f1, f2, d);
}

/// The cubic segment never exceeds its hard limit of two thirds.
proof fn lemma_cubic_core_v_le_limit(u: int)
    requires
        0 <= u <= FX_ONE,
    ensures
        0 <= cubic_core_v(u) <= CUBIC_LIMIT as int,
{
    lemma_cubic_core_v_monotone(u, FX_ONE as int);
    assert(65536int * (12884901888 - 65536 * 65536) == 562949953421312) by (nonlinear_arith);
    assert(cubic_core_v(FX_ONE as int) == 562949953421312int / 12884901888int);
}

/// The cubic curve is monotone non-decreasing for non-negative inputs at a
/// fixed threshold and softness: a louder input never comes out quieter.
pub proof fn lemma_soft_clip_cubic_monotone(x1: int, x2: int, t: int, s: int)
    requires
        0 <= x1 <= x2 <= FX_CAP as int,
        1 <= t <= GAIN_MAX as int,
        0 <= s <= FX_ONE,
    ensures
        soft_clip_cubic_v(x1, t, s) <= soft_clip_cubic_v(x2, t, s),
{
    lemma_fx_mul_v_bounds(s, FX_HALF as int);
    lemma_fx_mul_v_bounds(t, FX_ONE - fx_mul_v(s, FX_HALF as int));
    let knee = fx_mul_v(t, FX_ONE - fx_mul_v(s, FX_HALF as int));
    let d = t - knee + FX_EPS;
    if x2 < knee {
        // both inputs pass through unchanged
    } else {
        let u_raw2 = fx_div_v(x2 - knee, d);
        lemma_fx_div_v_nonneg(x2 - knee, d);
        let u2 = if u_raw2 > 2 * FX_ONE {
            2 * FX_ONE as int
        } else {
            u_raw2
        };
        let c2 = if u2 < FX_ONE {
            cubic_core_v(u2)
        } else {
            CUBIC_LIMIT as int
        };
        if u2 < FX_ONE {
            lemma_cubic_core_v_le_limit(u2);
        }
        lemma_fx_mul_v_bounds(c2, t - knee);
        assert(c2 * (t - knee) == (t - knee) * c2) by (nonlinear_arith);
        lemma_fx_mul_v_bounds(t - knee, c2);
        let scaled2 = fx_mul_v(fx_mul_v(c2, t - knee), FX_THREE_HALVES as int);
        lemma_fx_mul_v_bounds(fx_mul_v(c2, t - knee), FX_THREE_HALVES as int);
        if x1 < knee {
            assert(soft_clip_cubic_v(x1, t, s) == x1);
            assert(soft_clip_cubic_v(x2, t, s) == knee + scaled2);
        } else {
            let u_raw1 = fx_div_v(x1 - knee, d);
            lemma_fx_div_v_nonneg(x1 - knee, d);
            lemma_fx_div_v_monotone(x1 - knee, x2 - knee, d);
            let u1 = if u_raw1 > 2 * FX_ONE {
                2 * FX_ONE as int
            } else {
                u_raw1
            };
            let c1 = if u1 < FX_ONE {
                cubic_core_v(u1)
            } else {
                CUBIC_LIMIT as int
            };
            if u1 < FX_ONE && u2 < FX_ONE {
                lemma_cubic_core_v_monotone(u1, u2);
            } else if u1 < FX_ONE {
                lemma_cubic_core_v_le_limit(u1);
            }
            lemma_fx_mul_v_monotone(c1, c2, t - knee);
            lemma_fx_mul_v_monotone(fx_mul_v(c1, t - knee), fx_mul_v(c2, t - knee),
                FX_THREE_HALVES as int);
        }
    }
}

/// Apply the transfer function selected by `mode`.
///
/// Hard mode with audible softness is a linear blend of the hard and tanh
/// curves; the soft and cubic modes floor softness at one half.
pub fn apply_clipping(input: i64, threshold: i64, softness: i64, mode: ClipMode) -> (r: i64)
    requires
        1 <= threshold <= GAIN_MAX,
        0 <= softness <= FX_ONE,
        -FX_CAP <= input <= FX_CAP,
    ensures
        r == apply_clipping_v(input as int, threshold as int, softness as int, mode),
        -FX_CAP <= r <= FX_CAP,
        input == 0 ==> r == 0,
{
    match mode {
        ClipMode::Hard => {
            if softness > BLEND_MIN {
                let hard: i64 = hard_clip(input, threshold);
                let soft: i64 = soft_clip_tanh(input, threshold, softness);
                one_pole(hard, soft, FX_ONE - softness)
            } else {
                hard_clip(input, threshold)
            }
        },
        ClipMode::Soft => {
            let s: i64 = if softness < FX_HALF {
                FX_HALF
            } else {
                softness
            };
            soft_clip_tanh(input, threshold, s)
        },
        ClipMode::Cubic => {
            let s: i64 = if softness < FX_HALF {
                FX_HALF
            } else {
                softness
            };
            soft_clip_cubic(input, threshold, s)
        },
    }
}

} // verus!
