//! Q16 fixed-point arithmetic for the signal path.
//!
//! An amplitude, gain or coefficient is an `i64` holding the real value
//! scaled by `FX_ONE`.  Products and quotients are computed exactly in
//! 128-bit intermediates, truncated toward zero, and saturated into
//! `[-FX_CAP, FX_CAP]`, so every operation is a total function with an
//! exact specification.

use vstd::prelude::*;
use vstd::arithmetic::div_mod::lemma_fundamental_div_mod;
use vstd::arithmetic::div_mod::lemma_fundamental_div_mod_converse;
use vstd::arithmetic::div_mod::lemma_div_is_ordered;
use vstd::arithmetic::div_mod::lemma_div_is_ordered_by_denominator;
use vstd::arithmetic::div_mod::lemma_div_multiples_vanish;
use vstd::arithmetic::div_mod::lemma_basic_div;
use vstd::arithmetic::power2::pow2;
use vstd::arithmetic::power2::lemma_pow2_unfold;
use vstd::arithmetic::power2::lemma_pow2_pos;
use vstd::arithmetic::power2::lemma_pow2_strictly_increases;
use vstd::arithmetic::power2::lemma2_to64;

verus! {

/// One unit (1.0) in Q16 fixed point.
pub const FX_ONE: i64 = 65536;

/// Saturation bound of the fixed-point domain: 2^47, about 2.1e9 units.
pub const FX_CAP: i64 = 140737488355328;

/// Clamp a mathematical integer into the representable range.
pub open spec fn fx_sat(v: int) -> int {
    if v > FX_CAP as int {
        FX_CAP as int
    } else if v < -(FX_CAP as int) {
        -(FX_CAP as int)
    } else {
        v
    }
}

/// Division truncated toward zero, as the executable code performs it.
pub open spec fn tdiv(a: int, b: int) -> int
    recommends
        1 <= b,
{
    if a >= 0 {
        a / b
    } else {
        -((-a) / b)
    }
}

/// The exact value of a saturating Q16 multiplication.
pub open spec fn fx_mul_v(a: int, b: int) -> int {
    fx_sat(tdiv(a * b, FX_ONE as int))
}

/// The exact value of a saturating Q16 division.
pub open spec fn fx_div_v(a: int, b: int) -> int
    recommends
        1 <= b,
{
    fx_sat(tdiv(a * FX_ONE, b))
}

/// The exact value of a one-pole smoothing step: `coeff` weights the
/// previous value, `FX_ONE - coeff` the target.
pub open spec fn one_pole_v(prev: int, target: int, coeff: int) -> int {
    tdiv(coeff * prev + (FX_ONE - coeff) * target, FX_ONE as int)
}

/// Truncating division stays between any pair of multiples of the divisor
/// that bracket the numerator.
pub proof fn lemma_tdiv_between(lo: int, hi: int, num: int, d: int)
    requires
        1 <= d,
        lo * d <= num,
        num <= hi * d,
    ensures
        lo <= tdiv(num, d) <= hi,
{
    if num >= 0 {
        assert(hi * d == d * hi) by (nonlinear_arith);
        lemma_div_is_ordered(num, hi * d, d);
        lemma_div_multiples_vanish(hi, d);
        assert((hi * d) / d == hi);
        if lo >= 0 {
            assert(lo * d == d * lo) by (nonlinear_arith);
            lemma_div_is_ordered(lo * d, num, d);
            lemma_div_multiples_vanish(lo, d);
            assert((lo * d) / d == lo);
        } else {
            lemma_div_pos(num, d);
        }
    } else {
        assert(-num <= (-lo) * d && (-lo) * d == d * (-lo)) by (nonlinear_arith)
            requires
                lo * d <= num,
        ;
        lemma_div_is_ordered(-num, (-lo) * d, d);
        lemma_div_multiples_vanish(-lo, d);
        assert(((-lo) * d) / d == -lo);
        if hi < 0 {
            assert((-hi) * d <= -num && (-hi) * d == d * (-hi)) by (nonlinear_arith)
                requires
                    num <= hi * d,
            ;
            lemma_div_is_ordered((-hi) * d, -num, d);
            lemma_div_multiples_vanish(-hi, d);
            assert(((-hi) * d) / d == -hi);
        } else {
            lemma_div_pos(-num, d);
        }
    }
}

/// Euclidean division of a non-negative number by a positive number is
/// non-negative.
pub proof fn lemma_div_pos(a: int, d: int)
    requires
        0 <= a,
        1 <= d,
    ensures
        0 <= a / d <= a,
{
    lemma_fundamental_div_mod(a, d);
    assert(a == d * (a / d) + a % d);
    assert(0 <= a % d < d);
    assert(0 <= a / d) by (nonlinear_arith)
        requires
            d * (a / d) + a % d >= 0,
            0 <= a % d < d,
            1 <= d,
    ;
    assert(a / d <= a) by (nonlinear_arith)
        requires
            a == d * (a / d) + a % d,
            0 <= a % d,
            0 <= a / d,
            1 <= d,
    ;
}

/// Truncating division is monotone in the numerator.
pub proof fn lemma_tdiv_monotone(a: int, b: int, d: int)
    requires
        a <= b,
        1 <= d,
    ensures
        tdiv(a, d) <= tdiv(b, d),
{
    if a >= 0 {
        lemma_div_is_ordered(a, b, d);
    } else if b >= 0 {
        lemma_div_pos(-a, d);
        lemma_div_pos(b, d);
    } else {
        lemma_div_is_ordered(-b, -a, d);
    }
}

/// Clamp a 128-bit intermediate into the representable range.
fn sat128(v: i128) -> (r: i64)
    ensures
        r == fx_sat(v as int),
        -FX_CAP <= r <= FX_CAP,
{
    if v > FX_CAP as i128 {
        FX_CAP
    } else if v < -(FX_CAP as i128) {
        -FX_CAP
    } else {
        v as i64
    }
}

/// Division of a 128-bit intermediate truncated toward zero.
pub(crate) fn tdiv128(num: i128, d: i128) -> (r: i128)
    requires
        1 <= d,
        -(i128::MAX as int) <= num,
    ensures
        r == tdiv(num as int, d as int),
        num >= 0 ==> 0 <= r <= num,
        num < 0 ==> num <= r <= 0,
{
    if num >= 0 {
        proof {
            lemma_div_pos(num as int, d as int);
        }
        (num as u128 / d as u128) as i128
    } else {
        let m: u128 = (-num) as u128 / d as u128;
        proof {
            lemma_div_pos(-(num as int), d as int);
        }
        -(m as i128)
    }
}

/// Saturating Q16 multiplication.
pub fn fx_mul(a: i64, b: i64) -> (r: i64)
    requires
        -FX_CAP <= a <= FX_CAP,
        -FX_CAP <= b <= FX_CAP,
    ensures
        r == fx_mul_v(a as int, b as int),
        -FX_CAP <= r <= FX_CAP,
{
    proof {
        assert(-(FX_CAP as int) * (FX_CAP as int) <= (a as int) * (b as int)
            <= (FX_CAP as int) * (FX_CAP as int)) by (nonlinear_arith)
            requires
                -FX_CAP <= a <= FX_CAP,
                -FX_CAP <= b <= FX_CAP,
        ;
    }
    let p: i128 = (a as i128) * (b as i128);
    let q: i128 = tdiv128(p, FX_ONE as i128);
    sat128(q)
}

/// Saturating Q16 division; the divisor must be positive.
pub fn fx_div(a: i64, b: i64) -> (r: i64)
    requires
        -FX_CAP <= a <= FX_CAP,
        1 <= b,
    ensures
        r == fx_div_v(a as int, b as int),
        -FX_CAP <= r <= FX_CAP,
{
    proof {
        assert(-(FX_CAP as int) * FX_ONE <= (a as int) * FX_ONE
            <= (FX_CAP as int) * FX_ONE) by (nonlinear_arith)
            requires
                -FX_CAP <= a <= FX_CAP,
        ;
    }
    let p: i128 = (a as i128) * (FX_ONE as i128);
    let q: i128 = tdiv128(p, b as i128);
    sat128(q)
}

/// Saturating addition.
pub fn sat_add(a: i64, b: i64) -> (r: i64)
    ensures
        r == fx_sat(a + b),
        -FX_CAP <= r <= FX_CAP,
{
    sat128((a as i128) + (b as i128))
}

/// Plain truncating division on `i64`; the divisor must be positive.
pub fn div_trunc(a: i64, b: i64) -> (r: i64)
    requires
        1 <= b,
        i64::MIN < a,
    ensures
        r == tdiv(a as int, b as int),
{
    let q: i128 = tdiv128(a as i128, b as i128);
    q as i64
}

/// A one-pole step lands between its previous value and its target.
pub proof fn lemma_one_pole_between(prev: int, target: int, coeff: int)
    requires
        0 <= coeff <= FX_ONE,
        -(FX_CAP as int) <= prev <= FX_CAP as int,
        -(FX_CAP as int) <= target <= FX_CAP as int,
    ensures
        prev <= target ==> prev <= one_pole_v(prev, target, coeff) <= target,
        target <= prev ==> target <= one_pole_v(prev, target, coeff) <= prev,
{
    let lo: int = if prev <= target { prev } else { target };
    let hi: int = if prev <= target { target } else { prev };
    let num: int = coeff * prev + (FX_ONE - coeff) * target;
    assert(lo * FX_ONE <= num && num <= hi * FX_ONE) by (nonlinear_arith)
        requires
            num == coeff * prev + (FX_ONE - coeff) * target,
            0 <= coeff <= FX_ONE,
            lo <= prev <= hi,
            lo <= target <= hi,
    ;
    lemma_tdiv_between(lo, hi, num, FX_ONE as int);
}

/// One step of a one-pole smoother.  The result lies between the previous
/// value and the target.
pub fn one_pole(prev: i64, target: i64, coeff: i64) -> (r: i64)
    requires
        0 <= coeff <= FX_ONE,
        -FX_CAP <= prev <= FX_CAP,
        -FX_CAP <= target <= FX_CAP,
    ensures
        r == one_pole_v(prev as int, target as int, coeff as int),
        prev <= target ==> prev <= r <= target,
        target <= prev ==> target <= r <= prev,
{
    proof {
        assert(-(FX_CAP as int) * FX_ONE <= (coeff as int) * (prev as int)
            <= (FX_CAP as int) * FX_ONE) by (nonlinear_arith)
            requires
                0 <= coeff <= FX_ONE,
                -FX_CAP <= prev <= FX_CAP,
        ;
        assert(-(FX_CAP as int) * FX_ONE <= (FX_ONE - coeff) * (target as int)
            <= (FX_CAP as int) * FX_ONE) by (nonlinear_arith)
            requires
                0 <= coeff <= FX_ONE,
                -FX_CAP <= target <= FX_CAP,
        ;
        lemma_one_pole_between(prev as int, target as int, coeff as int);
    }
    let num: i128 = (coeff as i128) * (prev as i128)
        + ((FX_ONE - coeff) as i128) * (target as i128);
    let q: i128 = tdiv128(num, FX_ONE as i128);
    q as i64
}

/// Magnitude of a mathematical integer.
pub open spec fn fx_abs(x: int) -> int {
    if x < 0 {
        -x
    } else {
        x
    }
}

/// The larger of two mathematical integers.
pub open spec fn fx_max(a: int, b: int) -> int {
    if a >= b {
        a
    } else {
        b
    }
}

/// Clamping into a closed interval.
pub open spec fn clamp_v(x: int, lo: int, hi: int) -> int {
    if x < lo {
        lo
    } else if x > hi {
        hi
    } else {
        x
    }
}

/// Clamp a value into `[lo, hi]`.
pub fn clamp64(x: i64, lo: i64, hi: i64) -> (r: i64)
    requires
        lo <= hi,
    ensures
        r == clamp_v(x as int, lo as int, hi as int),
        lo <= r <= hi,
{
    if x < lo {
        lo
    } else if x > hi {
        hi
    } else {
        x
    }
}

/// A saturating Q16 product with a fixed non-negative factor preserves
/// order in the other factor.
pub proof fn lemma_fx_mul_v_monotone(a1: int, a2: int, m: int)
    requires
        a1 <= a2,
        0 <= m,
    ensures
        fx_mul_v(a1, m) <= fx_mul_v(a2, m),
{
    assert(a1 * m <= a2 * m) by (nonlinear_arith)
        requires
            a1 <= a2,
            0 <= m,
    ;
    lemma_tdiv_monotone(a1 * m, a2 * m, FX_ONE as int);
}

/// A saturating Q16 product of non-negative factors is non-negative, and
/// at most the first factor when the second is at most one.
pub proof fn lemma_fx_mul_v_bounds(a: int, m: int)
    requires
        0 <= a,
        0 <= m,
    ensures
        0 <= fx_mul_v(a, m),
        m <= FX_ONE ==> fx_mul_v(a, m) <= a,
{
    assert(0 <= a * m) by (nonlinear_arith)
        requires
            0 <= a,
            0 <= m,
    ;
    lemma_div_pos(a * m, FX_ONE as int);
    if m <= FX_ONE {
        assert(a * m <= a * FX_ONE) by (nonlinear_arith)
            requires
                0 <= a,
                m <= FX_ONE,
        ;
        lemma_div_is_ordered(a * m, a * FX_ONE, FX_ONE as int);
        lemma_div_multiples_vanish(a, FX_ONE as int);
        assert(a * FX_ONE == (FX_ONE as int) * a) by (nonlinear_arith);
    }
}

/// A saturating Q16 product with zero is zero.
pub proof fn lemma_fx_mul_v_zero(b: int)
    ensures
        fx_mul_v(0, b) == 0,
{
    assert(0int * b == 0) by (nonlinear_arith);
}

/// A saturating Q16 quotient by a fixed positive divisor preserves order
/// in the numerator.
pub proof fn lemma_fx_div_v_monotone(a1: int, a2: int, b: int)
    requires
        a1 <= a2,
        1 <= b,
    ensures
        fx_div_v(a1, b) <= fx_div_v(a2, b),
{
    assert(a1 * FX_ONE <= a2 * FX_ONE) by (nonlinear_arith)
        requires
            a1 <= a2,
    ;
    lemma_tdiv_monotone(a1 * FX_ONE, a2 * FX_ONE, b);
}

/// A saturating Q16 quotient of a non-negative numerator is non-negative.
pub proof fn lemma_fx_div_v_nonneg(a: int, b: int)
    requires
        0 <= a,
        1 <= b,
    ensures
        0 <= fx_div_v(a, b),
{
    assert(0 <= a * FX_ONE) by (nonlinear_arith)
        requires
            0 <= a,
    ;
    lemma_div_pos(a * FX_ONE, b);
}

/// Cubic coefficients of the base-2 exponential on one octave,
/// constrained so that the curve is exact at both octave ends.
pub const EXP2_C1: i64 = 45606;

pub const EXP2_C2: i64 = 14815;

pub const EXP2_C3: i64 = 5115;

/// `log2(10) / 20` in Q16: one decibel as a base-2 exponent.
pub const DB_EXP_SCALE: i64 = 10885;

/// `log2(e)` in Q16: turns `x` into the base-2 exponent of `e^x`.
pub const LOG2_E: i64 = 94548;

/// `2 * log2(e)` in Q16: turns `x` into the base-2 exponent of `e^(2x)`.
pub const TWO_LOG2_E: i64 = 189096;

/// Inputs at or above this level (12.0 units) saturate the hyperbolic
/// tangent to one in Q16 resolution.
pub const TANH_SAT_IN: i64 = 786432;

/// Smallest accepted gain argument: -96 dB.
pub const DB_MIN: i64 = -6291456;

/// Largest accepted gain argument: +24 dB.
pub const DB_MAX: i64 = 1572864;

/// Largest linear gain, `db_to_linear(DB_MAX)` rounded up to 16.0 units.
pub const GAIN_MAX: i64 = 1048576;

/// The base-2 exponential on a fraction of one octave, `0 <= f < FX_ONE`.
pub open spec fn exp2_frac_v(f: int) -> int {
    let t3 = (EXP2_C3 * f) / (FX_ONE as int);
    let t2 = ((EXP2_C2 + t3) * f) / (FX_ONE as int);
    let t1 = ((EXP2_C1 + t2) * f) / (FX_ONE as int);
    FX_ONE + t1
}

/// The base-2 exponential of a Q16 exponent: the fractional part is mapped
/// through `exp2_frac_v` and the integer part shifts the octave.
pub open spec fn exp2_v(y: int) -> int {
    let n = y / (FX_ONE as int);
    let f = y % (FX_ONE as int);
    if n >= 0 {
        fx_sat(exp2_frac_v(f) * pow2(n as nat))
    } else {
        exp2_frac_v(f) / (pow2((-n) as nat) as int)
    }
}

/// Decibels to linear gain: `10^(db/20)` as a Q16 value.
pub open spec fn db_to_linear_v(db: int) -> int {
    exp2_v(tdiv(db * DB_EXP_SCALE, FX_ONE as int))
}

/// The hyperbolic tangent of a non-negative Q16 value, through
/// `(e^(2a) - 1) / (e^(2a) + 1)`.
pub open spec fn tanh_mag_v(a: int) -> int {
    if a >= TANH_SAT_IN {
        FX_ONE as int
    } else {
        let e = exp2_v((a * TWO_LOG2_E) / (FX_ONE as int));
        tdiv((e - FX_ONE) * FX_ONE, e + FX_ONE)
    }
}

/// The hyperbolic tangent of a Q16 value, odd by construction.
pub open spec fn tanh_v(v: int) -> int {
    if v >= 0 {
        tanh_mag_v(v)
    } else {
        -tanh_mag_v(-v)
    }
}

/// The cubic octave interpolant, shared by the exponential entry points.
fn exp2_frac(f: i64) -> (p: i64)
    requires
        0 <= f < FX_ONE,
    ensures
        p == exp2_frac_v(f as int),
        FX_ONE <= p <= 131071,
        f == 0 ==> p == FX_ONE,
{
    let fu: u64 = f as u64;
    let t3: u64 = (5115u64 * fu) / 65536u64;
    proof {
        lemma_div_is_ordered(5115 * (fu as int), 5115int * 65535, 65536);
        lemma_div_pos(5115 * (fu as int), 65536);
    }
    proof {
        assert((14815 + t3 as int) * (fu as int) <= 19929 * 65535) by (nonlinear_arith)
            requires
                0 <= t3 as int <= 5114,
                0 <= fu as int <= 65535,
        ;
        assert((14815 + t3 as int) * (fu as int) >= 0) by (nonlinear_arith)
            requires
                0 <= t3 as int,
                0 <= fu as int,
        ;
        lemma_div_is_ordered((14815 + t3 as int) * (fu as int), 19929int * 65535, 65536);
        lemma_div_pos((14815 + t3 as int) * (fu as int), 65536);
    }
    let t2: u64 = ((14815u64 + t3) * fu) / 65536u64;
    proof {
        assert((45606 + t2 as int) * (fu as int) <= 65536 * 65535) by (nonlinear_arith)
            requires
                0 <= t2 as int <= 19930,
                0 <= fu as int <= 65535,
        ;
        assert((45606 + t2 as int) * (fu as int) >= 0) by (nonlinear_arith)
            requires
                0 <= t2 as int,
                0 <= fu as int,
        ;
        lemma_div_is_ordered((45606 + t2 as int) * (fu as int), 65536int * 65535, 65536);
        lemma_div_pos((45606 + t2 as int) * (fu as int), 65536);
    }
    let t1: u64 = ((45606u64 + t2) * fu) / 65536u64;
    proof {
        if f == 0 {
            assert((14815 + t3 as int) * (fu as int) == 0) by (nonlinear_arith)
                requires
                    fu as int == 0,
            ;
            assert((45606 + t2 as int) * (fu as int) == 0) by (nonlinear_arith)
                requires
                    fu as int == 0,
            ;
        }
    }
    (65536u64 + t1) as i64
}

/// One factor of two per step, up to the 64 octaves the callers need.
fn pow2_exec(e: i64) -> (r: u128)
    requires
        0 <= e <= 64,
    ensures
        r == pow2(e as nat),
        r <= 0x10000000000000000u128,
{
    let mut acc: u128 = 1;
    let mut i: i64 = 0;
    proof {
        lemma2_to64();
    }
    while i < e
        invariant
            0 <= i <= e <= 64,
            acc == pow2(i as nat),
            i < 64 ==> acc <= 0x8000000000000000u128,
            i == 64 ==> acc == 0x10000000000000000u128,
        decreases e - i,
    {
        proof {
            lemma_pow2_unfold((i + 1) as nat);
            lemma2_to64();
            vstd::arithmetic::power2::lemma2_to64_rest();
            if i + 1 < 63 {
                lemma_pow2_strictly_increases((i + 1) as nat, 63);
            }
        }
        acc = acc * 2;
        i = i + 1;
    }
    acc
}

/// The base-2 exponential of a Q16 exponent, saturating upward and
/// flushing to zero below the representable range.
pub fn exp2_fx(y: i64) -> (r: i64)
    requires
        y <= 4194304,
    ensures
        r == exp2_v(y as int),
        0 <= r <= FX_CAP,
        y == 0 ==> r == FX_ONE,
{
    let n: i64;
    let f: i64;
    if y >= 0 {
        n = ((y as u64) / 65536u64) as i64;
        f = ((y as u64) % 65536u64) as i64;
    } else {
        let m: u64 = (-(y as i128)) as u64;
        let q: u64 = m / 65536u64;
        let rem: u64 = m % 65536u64;
        proof {
            lemma_fundamental_div_mod(m as int, 65536);
        }
        if rem == 0 {
            n = -(q as i64);
            f = 0;
            proof {
                lemma_fundamental_div_mod_converse(y as int, 65536, n as int, 0);
            }
        } else {
            n = -(q as i64) - 1;
            f = (65536u64 - rem) as i64;
            proof {
                lemma_fundamental_div_mod_converse(y as int, 65536, n as int, f as int);
            }
        }
    }
    let p: i64 = exp2_frac(f);
    if n >= 0 {
        let shift: u128 = pow2_exec(n);
        proof {
            lemma_pow2_pos(n as nat);
            lemma2_to64();
            assert((p as int) * (shift as int) <= 131071 * 0x10000000000000000) by (nonlinear_arith)
                requires
                    0 <= p as int <= 131071,
                    0 <= shift as int <= 0x10000000000000000,
            ;
            assert((p as int) * (shift as int) >= 65536 * 1) by (nonlinear_arith)
                requires
                    65536 <= p as int,
                    1 <= shift as int,
            ;
        }
        let prod: u128 = (p as u128) * shift;
        sat128(prod as i128)
    } else {
        let k: i64 = if n >= -64 { -n } else { 64 };
        if k >= 18 {
            proof {
                lemma2_to64();
                if (-(n as int)) > 18 {
                    lemma_pow2_strictly_increases(18, (-(n as int)) as nat);
                }
                lemma_basic_div(p as int, pow2((-(n as int)) as nat) as int);
            }
            0
        } else {
            let shift: u128 = pow2_exec(k);
            proof {
                lemma_pow2_pos(k as nat);
                lemma2_to64();
                lemma_pow2_strictly_increases(k as nat, 18);
                lemma_div_pos(p as int, pow2(k as nat) as int);
            }
            ((p as u64) / (shift as u64)) as i64
        }
    }
}

/// Decibels to linear gain over the library's gain range; zero decibels is
/// exactly unity.
pub fn db_to_linear(db: i64) -> (r: i64)
    requires
        DB_MIN <= db <= DB_MAX,
    ensures
        r == db_to_linear_v(db as int),
        1 <= r <= GAIN_MAX,
        db == 0 ==> r == FX_ONE,
{
    proof {
        lemma_tdiv_monotone((-6291456int) * 10885, db as int * 10885, 65536);
        lemma_tdiv_monotone(db as int * 10885, 1572864int * 10885, 65536);
    }
    let y: i64 = div_trunc_wide(db, 10885);
    let r: i64 = exp2_fx(y);
    proof {
        let yi = y as int;
        let n = yi / 65536;
        let f = yi % 65536;
        lemma_div_is_ordered(-1048576, yi, 65536);
        lemma_div_is_ordered(yi, 261240, 65536);
        assert(n >= -16 && n <= 3);
        vstd::arithmetic::div_mod::lemma_mod_bound(yi, 65536);
        let p = exp2_frac_v(f);
        lemma_exp2_frac_bounds(f);
        lemma2_to64();
        if n >= 0 {
            lemma_pow2_pos(n as nat);
            assert(1 <= pow2(n as nat) <= 8);
            assert(65536 * 1 <= p * pow2(n as nat) && p * pow2(n as nat) <= 131071 * 8)
                by (nonlinear_arith)
                requires
                    65536 <= p <= 131071,
                    1 <= pow2(n as nat) <= 8,
            ;
        } else {
            let k = (-n) as nat;
            if k < 16 {
                lemma_pow2_strictly_increases(k, 16);
            }
            lemma_pow2_pos(k);
            lemma_div_is_ordered_by_denominator(p, pow2(k) as int, 65536);
            lemma_div_is_ordered(65536, p, 65536);
            lemma_div_pos(p, pow2(k) as int);
        }
    }
    r
}

/// A one-pole step from zero toward zero stays at zero.
pub proof fn lemma_one_pole_v_zero(coeff: int)
    ensures
        one_pole_v(0, 0, coeff) == 0,
{
    assert(coeff * 0 == 0 && (FX_ONE - coeff) * 0 == 0) by (nonlinear_arith);
}

/// A saturating Q16 quotient of zero is zero.
pub proof fn lemma_fx_div_v_zero(b: int)
    requires
        b != 0,
    ensures
        fx_div_v(0, b) == 0,
{
    vstd::arithmetic::div_mod::lemma_div_of0(b);
}

/// The hyperbolic tangent of zero is zero.
pub proof fn lemma_tanh_v_zero()
    ensures
        tanh_v(0) == 0,
{
    lemma_basic_div(0, 65536);
    vstd::arithmetic::div_mod::lemma_small_mod(0, 65536);
    let e = exp2_v(0);
    lemma_exp2_frac_bounds(0);
    lemma2_to64();
    assert(exp2_frac_v(0) * pow2(0) == 65536) by (nonlinear_arith)
        requires
            exp2_frac_v(0) == 65536,
            pow2(0) == 1,
    ;
    assert(e == fx_sat(exp2_frac_v(0) * pow2(0)));
    assert(e == FX_ONE);
    vstd::arithmetic::div_mod::lemma_div_of0(e + FX_ONE);
}

/// From one unit upward the hyperbolic tangent is at least one
/// resolution step, so it can serve as a divisor.
pub proof fn lemma_tanh_v_ge_one(v: int)
    requires
        FX_ONE as int <= v,
    ensures
        1 <= tanh_v(v) <= FX_ONE,
{
    if v >= TANH_SAT_IN {
    } else {
        let y = (v * 189096) / 65536;
        let e = exp2_v(y);
        lemma_tanh_core(v, y, e);
        lemma_tdiv_between(1, FX_ONE as int, (e - FX_ONE) * FX_ONE, e + FX_ONE);
    }
}

/// A non-positive exponent never yields more than one unit.
pub proof fn lemma_exp2_le_one(y: int)
    requires
        y <= 0,
    ensures
        exp2_v(y) <= FX_ONE as int,
{
    let n = y / 65536;
    let f = y % 65536;
    vstd::arithmetic::div_mod::lemma_mod_bound(y, 65536);
    lemma_exp2_frac_bounds(f);
    let p = exp2_frac_v(f);
    lemma2_to64();
    if y == 0 {
        assert(pow2(0) == 1);
        assert(fx_sat(p * 1) == p);
    } else {
        lemma_div_is_ordered(y, -1, 65536);
        assert(n <= -1);
        let k = (-n) as nat;
        if k > 1 {
            lemma_pow2_strictly_increases(1, k);
        }
        lemma_pow2_pos(k);
        lemma_div_is_ordered_by_denominator(p, 2, pow2(k) as int);
        lemma_div_is_ordered(p, 131071, 2);
    }
}

/// Truncating division with a 128-bit product in the numerator, for the
/// decibel scaling above.
fn div_trunc_wide(a: i64, m: i64) -> (r: i64)
    requires
        0 <= m <= 100000,
        -(FX_CAP as int) <= a as int * m,
        a as int * m <= FX_CAP as int,
    ensures
        r == tdiv(a as int * m as int, FX_ONE as int),
{
    let p: i128 = (a as i128) * (m as i128);
    let q: i128 = tdiv128(p, 65536);
    q as i64
}

/// The hyperbolic tangent in Q16, saturating to one for large inputs.
pub fn tanh_fx(v: i64) -> (r: i64)
    ensures
        r == tanh_v(v as int),
        -FX_ONE <= r <= FX_ONE,
        v == 0 ==> r == 0,
        v >= FX_ONE ==> 1 <= r,
{
    let neg: bool = v < 0;
    let a: i64 = if v >= TANH_SAT_IN {
        TANH_SAT_IN
    } else if v >= 0 {
        v
    } else if v > -TANH_SAT_IN {
        -v
    } else {
        TANH_SAT_IN
    };
    let mag: i64 = tanh_mag(a);
    if neg {
        -mag
    } else {
        mag
    }
}

/// The non-negative branch of the hyperbolic tangent.
fn tanh_mag(a: i64) -> (r: i64)
    requires
        0 <= a <= TANH_SAT_IN,
    ensures
        r == tanh_mag_v(a as int),
        0 <= r <= FX_ONE,
        a == 0 ==> r == 0,
        a >= FX_ONE ==> 1 <= r,
{
    if a >= TANH_SAT_IN {
        FX_ONE
    } else {
        let yw: u64 = ((a as u64) * 189096u64) / 65536u64;
        proof {
            lemma_div_is_ordered((a as int) * 189096, 786431int * 189096, 65536);
            lemma_div_pos((a as int) * 189096, 65536);
        }
        let y: i64 = yw as i64;
        let e: i64 = exp2_fx(y);
        proof {
            lemma_tanh_core(a as int, y as int, e as int);
        }
        let num: i128 = ((e - FX_ONE) as i128) * (FX_ONE as i128);
        let den: i128 = (e + FX_ONE) as i128;
        let q: i128 = tdiv128(num, den);
        proof {
            lemma_tdiv_between(-(FX_ONE as int), FX_ONE as int, num as int, den as int);
            if a >= FX_ONE {
                lemma_tdiv_between(1, FX_ONE as int, num as int, den as int);
            }
        }
        q as i64
    }
}

/// Facts about `exp2_v` on the exponent produced inside `tanh_mag`: the
/// exponential is at least one quarter unit, and at least four units once
/// the argument reaches one.
proof fn lemma_tanh_core(a: int, y: int, e: int)
    requires
        0 <= a < TANH_SAT_IN,
        y == (a * 189096) / 65536,
        e == exp2_v(y),
    ensures
        0 <= e <= FX_CAP as int,
        e >= FX_ONE,
        a >= FX_ONE ==> e >= 4 * FX_ONE,
        a == 0 ==> e == FX_ONE,
        -(FX_ONE as int) * (e + FX_ONE) <= (e - FX_ONE) * FX_ONE,
        (e - FX_ONE) * FX_ONE <= (FX_ONE as int) * (e + FX_ONE),
        a >= FX_ONE ==> (e - FX_ONE) * FX_ONE >= 1 * (e + FX_ONE),
{
    let n = y / 65536;
    let f = y % 65536;
    lemma_div_pos(a * 189096, 65536);
    vstd::arithmetic::div_mod::lemma_mod_bound(y, 65536);
    lemma_div_pos(y, 65536);
    let p = exp2_frac_v(f);
    lemma_exp2_frac_bounds(f);
    lemma2_to64();
    lemma_pow2_pos(n as nat);
    assert(e == fx_sat(p * pow2(n as nat)));
    assert(p * pow2(n as nat) >= 65536 * 1) by (nonlinear_arith)
        requires
            p >= 65536,
            pow2(n as nat) >= 1,
    ;
    if a >= FX_ONE {
        lemma_div_is_ordered(65536int * 189096, a * 189096, 65536);
        lemma_div_multiples_vanish(189096, 65536);
        lemma_div_is_ordered(131072, y, 65536);
        assert(n >= 2);
        if n > 2 {
            lemma_pow2_strictly_increases(2, n as nat);
        }
        assert(p * pow2(n as nat) >= 65536 * 4) by (nonlinear_arith)
            requires
                p >= 65536,
                pow2(n as nat) >= 4,
        ;
    }
    if a == 0 {
        assert(y == 0) by {
            lemma_basic_div(0, 65536);
        }
        assert(pow2(0) == 1);
    }
    assert((e - FX_ONE) * FX_ONE + (FX_ONE as int) * (e + FX_ONE) == e * 2 * FX_ONE)
        by (nonlinear_arith);
    assert((FX_ONE as int) * (e + FX_ONE) - (e - FX_ONE) * FX_ONE == 2 * FX_ONE * FX_ONE)
        by (nonlinear_arith);
    assert(e * 2 * FX_ONE >= 0) by (nonlinear_arith)
        requires
            e >= 0,
    ;
    if a >= FX_ONE {
        assert((e - FX_ONE) * FX_ONE - 1 * (e + FX_ONE) >= 0) by (nonlinear_arith)
            requires
                e >= 4 * FX_ONE,
                FX_ONE == 65536,
        ;
    }
}

/// The octave interpolant stays within one octave and is exact at zero.
proof fn lemma_exp2_frac_bounds(f: int)
    requires
        0 <= f < FX_ONE,
    ensures
        FX_ONE <= exp2_frac_v(f) <= 131071,
        f == 0 ==> exp2_frac_v(f) == FX_ONE,
{
    let t3 = (5115 * f) / 65536;
    lemma_div_is_ordered(5115 * f, 5115int * 65535, 65536);
    lemma_div_pos(5115 * f, 65536);
    let t2 = ((14815 + t3) * f) / 65536;
    assert((14815 + t3) * f <= 19929 * 65535) by (nonlinear_arith)
        requires
            0 <= t3 <= 5114,
            0 <= f <= 65535,
    ;
    lemma_div_is_ordered((14815 + t3) * f, 19929int * 65535, 65536);
    assert((14815 + t3) * f >= 0) by (nonlinear_arith)
        requires
            0 <= t3,
            0 <= f,
    ;
    lemma_div_pos((14815 + t3) * f, 65536);
    let t1 = ((45606 + t2) * f) / 65536;
    assert((45606 + t2) * f <= 65536 * 65535) by (nonlinear_arith)
        requires
            0 <= t2 <= 19930,
            0 <= f <= 65535,
    ;
    lemma_div_is_ordered((45606 + t2) * f, 65536int * 65535, 65536);
    assert((45606 + t2) * f >= 0) by (nonlinear_arith)
        requires
            0 <= t2,
            0 <= f,
    ;
    lemma_div_pos((45606 + t2) * f, 65536);
}

} // verus!
