//! The transient-shaping blend applied after clipping.
//!
//! Two gain multipliers are derived from the detected transient amount:
//! one acting on the transient portion, one on the sustain portion.  The
//! output crossfades the two scaled copies of the clipped sample by the
//! clamped transient amount, avoiding the phase artifacts of multiband
//! transient designs.

use vstd::prelude::*;
use crate::fixed::FX_ONE;
use crate::fixed::FX_CAP;
use crate::fixed::fx_sat;
use crate::fixed::fx_mul_v;
use crate::fixed::fx_div_v;
use crate::fixed::fx_mul;
use crate::fixed::fx_div;
use crate::fixed::sat_add;
use crate::fixed::lemma_fx_mul_v_zero;
use crate::fixed::lemma_fx_mul_v_bounds;

verus! {

/// `0.8` in Q16: the gentler scale of the transient multiplier.
pub const ATTACK_SCALE: i64 = 52429;

/// `0.5` in Q16: the scale of the sustain boost, and the floor of the
/// transient cut's divisor.
pub const SUSTAIN_BOOST_SCALE: i64 = 32768;

/// `0.3` in Q16: the scale of the sustain cut.
pub const SUSTAIN_CUT_SCALE: i64 = 19661;

/// The gain applied to the transient portion: a boost grows with the
/// transient amount, a cut divides by a floored factor.
pub open spec fn transient_mult_v(transient: int, attack: int) -> int {
    if attack > 0 {
        fx_sat(FX_ONE + fx_mul_v(fx_mul_v(transient, attack), ATTACK_SCALE as int))
    } else {
        let d = FX_ONE - fx_mul_v(fx_mul_v(attack, transient), ATTACK_SCALE as int);
        let dc = if d < SUSTAIN_BOOST_SCALE {
            SUSTAIN_BOOST_SCALE as int
        } else {
            d
        };
        fx_div_v(FX_ONE as int, dc)
    }
}

/// The gain applied to the sustain portion, driven by how far the signal
/// is from being a transient.
pub open spec fn sustain_mult_v(transient: int, sustain: int) -> int {
    let inv = if FX_ONE - transient > 0 {
        FX_ONE - transient
    } else {
        0
    };
    if sustain > 0 {
        fx_sat(FX_ONE + fx_mul_v(fx_mul_v(inv, sustain), SUSTAIN_BOOST_SCALE as int))
    } else {
        FX_ONE - fx_mul_v(fx_mul_v(inv, -sustain), SUSTAIN_CUT_SCALE as int)
    }
}

/// The shaped sample: the two scaled copies of the clipped sample,
/// crossfaded by the transient amount clamped to one.
pub open spec fn shaped_v(clipped: int, transient: int, attack: int, sustain: int) -> int {
    let w = if transient > FX_ONE {
        FX_ONE as int
    } else if transient < 0 {
        0
    } else {
        transient
    };
    fx_sat(fx_mul_v(fx_mul_v(clipped, transient_mult_v(transient, attack)), w) + fx_mul_v(
        fx_mul_v(clipped, sustain_mult_v(transient, sustain)), FX_ONE - w))
}

/// Shaping silence yields silence, whatever the gains detect.
pub proof fn lemma_shaped_v_zero(transient: int, attack: int, sustain: int)
    ensures
        shaped_v(0, transient, attack, sustain) == 0,
{
    let w = if transient > FX_ONE {
        FX_ONE as int
    } else if transient < 0 {
        0
    } else {
        transient
    };
    lemma_fx_mul_v_zero(transient_mult_v(transient, attack));
    lemma_fx_mul_v_zero(sustain_mult_v(transient, sustain));
    lemma_fx_mul_v_zero(w);
    lemma_fx_mul_v_zero(FX_ONE - w);
}

/// Blend transient emphasis into a clipped sample.
pub fn apply_transient_shaping(clipped: i64, transient_amount: i64, attack_gain: i64,
    sustain_gain: i64) -> (r: i64)
    requires
        -FX_CAP <= clipped <= FX_CAP,
        0 <= transient_amount <= FX_CAP,
        -FX_ONE <= attack_gain <= FX_ONE,
        -FX_ONE <= sustain_gain <= FX_ONE,
    ensures
        r == shaped_v(clipped as int, transient_amount as int, attack_gain as int,
            sustain_gain as int),
        -FX_CAP <= r <= FX_CAP,
        clipped == 0 ==> r == 0,
{
    let transient_mult: i64 = if attack_gain > 0 {
        sat_add(FX_ONE, fx_mul(fx_mul(transient_amount, attack_gain), ATTACK_SCALE))
    } else {
        let d: i64 = FX_ONE - fx_mul(fx_mul(attack_gain, transient_amount), ATTACK_SCALE);
        let dc: i64 = if d < SUSTAIN_BOOST_SCALE {
            SUSTAIN_BOOST_SCALE
        } else {
            d
        };
        fx_div(FX_ONE, dc)
    };
    let inv: i64 = if FX_ONE - transient_amount > 0 {
        FX_ONE - transient_amount
    } else {
        0
    };
    let sustain_mult: i64 = if sustain_gain > 0 {
        sat_add(FX_ONE, fx_mul(fx_mul(inv, sustain_gain), SUSTAIN_BOOST_SCALE))
    } else {
        proof {
            lemma_fx_mul_v_bounds(inv as int, -(sustain_gain as int));
            lemma_fx_mul_v_bounds(fx_mul_v(inv as int, -(sustain_gain as int)),
                SUSTAIN_CUT_SCALE as int);
        }
        FX_ONE - fx_mul(fx_mul(inv, -sustain_gain), SUSTAIN_CUT_SCALE)
    };
    let w: i64 = if transient_amount > FX_ONE {
        FX_ONE
    } else {
        transient_amount
    };
    let transient_part: i64 = fx_mul(fx_mul(clipped, transient_mult), w);
    let sustain_part: i64 = fx_mul(fx_mul(clipped, sustain_mult), FX_ONE - w);
    proof {
        if clipped == 0 {
            lemma_fx_mul_v_zero(transient_mult as int);
            lemma_fx_mul_v_zero(sustain_mult as int);
            lemma_fx_mul_v_zero(w as int);
            lemma_fx_mul_v_zero(FX_ONE - w as int);
        }
    }
    sat_add(transient_part, sustain_part)
}

} // verus!
