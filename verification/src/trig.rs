//! Angles and trigonometry in fixed point.
//!
//! Angles are measured in micro-turns: `TURN` is one full revolution, so a
//! half turn (pi radians) is exactly `HALF_TURN`. Sine and cosine are a
//! quarter-wave rational approximation, scaled by `fx::SCALE`; it is exact at
//! every multiple of a quarter turn and odd/even-symmetric by construction,
//! which the kinematics lemmas rely on.

use vstd::prelude::*;

verus! {

use crate::fx::SCALE;
use crate::fx::FX_MAX;

use vstd::arithmetic::div_mod::lemma_fundamental_div_mod;
use vstd::arithmetic::div_mod::lemma_fundamental_div_mod_converse_mod;
use vstd::arithmetic::div_mod::lemma_div_is_ordered;
use vstd::arithmetic::div_mod::lemma_div_multiples_vanish;
use vstd::arithmetic::div_mod::lemma_div_pos_is_pos;

/// One full revolution, in micro-turns.
pub const TURN: i64 = 1_000_000;

/// A quarter revolution (pi/2 radians).
pub const QUARTER_TURN: i64 = 250_000;

/// A half revolution (pi radians).
pub const HALF_TURN: i64 = 500_000;

/// An angle wrapped into `[0, TURN)`: the Euclidean remainder.
pub open spec fn wrap_spec(a: int) -> int {
    a % (TURN as int)
}

/// Wrap any angle into `[0, TURN)`.
pub fn wrap_angle(a: i64) -> (r: i64)
    ensures
        r as int == wrap_spec(a as int),
        0 <= r < TURN,
{
    if a >= 0 {
        ((a as u64) % (TURN as u64)) as i64
    } else {
        let m = ((((-(a as i128)) as u128) % (TURN as u128)) as i64);
        proof {
            let t = TURN as int;
            let pa = -(a as int);
            lemma_fundamental_div_mod(pa, t);
            let k = pa / t;
            assert(pa == t * k + (m as int));
            assert(a as int == t * (-k) - (m as int));
            if m == 0 {
                lemma_fundamental_div_mod_converse_mod(a as int, t, -k, 0);
            } else {
                assert(a as int == t * (-k - 1) + (t - m as int)) by (nonlinear_arith)
                    requires
                        a as int == t * (-k) - (m as int),
                ;
                lemma_fundamental_div_mod_converse_mod(a as int, t, -k - 1, t - m as int);
            }
        }
        if m == 0 {
            0
        } else {
            TURN - m
        }
    }
}

/// Quarter-wave sine: a rational approximation of `sin` on `[0, QUARTER_TURN]`,
/// scaled by `SCALE`; exact at both endpoints.
pub open spec fn sin_q_spec(o: int) -> int {
    let n = o * (2 * (QUARTER_TURN as int) - o);
    (4 * n * (SCALE as int)) / (5 * (QUARTER_TURN as int) * (QUARTER_TURN as int) - n)
}

/// The quarter-wave numerator term is at most a quarter turn squared.
proof fn lemma_sin_q_n_bounds(o: int)
    requires
        0 <= o <= QUARTER_TURN as int,
    ensures
        0 <= o * (2 * (QUARTER_TURN as int) - o),
        o * (2 * (QUARTER_TURN as int) - o) <= (QUARTER_TURN as int) * (QUARTER_TURN as int),
{
    let q = QUARTER_TURN as int;
    assert(0 <= o * (2 * q - o) && o * (2 * q - o) <= q * q) by (nonlinear_arith)
        requires
            0 <= o <= q,
    ;
}

pub proof fn lemma_sin_q_bounds(o: int)
    requires
        0 <= o <= QUARTER_TURN as int,
    ensures
        0 <= sin_q_spec(o) <= SCALE as int,
{
    let q = QUARTER_TURN as int;
    let s = SCALE as int;
    let n = o * (2 * q - o);
    lemma_sin_q_n_bounds(o);
    let num = 4 * n * s;
    let den = 5 * q * q - n;
    assert(num >= 0 && den >= 4 * q * q && num <= den * s) by (nonlinear_arith)
        requires
            0 <= n <= q * q,
            num == 4 * n * s,
            den == 5 * q * q - n,
            s == SCALE as int,
            q == QUARTER_TURN as int,
    ;
    lemma_div_pos_is_pos(num, den);
    lemma_div_is_ordered(num, den * s, den);
    lemma_div_multiples_vanish(s, den);
    assert(den * s == s * den) by (nonlinear_arith);
}

/// Quarter-wave sine, executable.
fn sin_q(o: i64) -> (r: i64)
    requires
        0 <= o <= QUARTER_TURN,
    ensures
        r as int == sin_q_spec(o as int),
        0 <= r <= SCALE,
{
    proof {
        lemma_sin_q_n_bounds(o as int);
    }
    let n: u64 = (o as u64) * (2 * (QUARTER_TURN as u64) - (o as u64));
    proof {
        assert(n <= 62_500_000_000u64);
        assert(4 * (n as int) * (SCALE as int) <= 250_000_000_000_000_000int) by (nonlinear_arith)
            requires
                n as int <= 62_500_000_000int,
        ;
    }
    let num: u128 = 4 * (n as u128) * (SCALE as u128);
    let den: u128 = 5 * (QUARTER_TURN as u128) * (QUARTER_TURN as u128) - (n as u128);
    proof {
        lemma_sin_q_bounds(o as int);
    }
    (num / den) as i64
}

/// Sine of an angle in micro-turns, scaled by `SCALE`: built from the
/// quarter wave by the usual quadrant symmetries.
pub open spec fn sin_spec(a: int) -> int {
    let w = wrap_spec(a);
    let q = QUARTER_TURN as int;
    if w < q {
        sin_q_spec(w)
    } else if w < 2 * q {
        sin_q_spec(2 * q - w)
    } else if w < 3 * q {
        -sin_q_spec(w - 2 * q)
    } else {
        -sin_q_spec(4 * q - w)
    }
}

/// Cosine, defined as sine a quarter turn ahead.
pub open spec fn cos_spec(a: int) -> int {
    sin_spec(a + QUARTER_TURN as int)
}

/// Sine of an angle in micro-turns.
pub fn sin_fx(a: i64) -> (r: i64)
    ensures
        r as int == sin_spec(a as int),
        -SCALE <= r <= SCALE,
{
    let w = wrap_angle(a);
    if w < QUARTER_TURN {
        sin_q(w)
    } else if w < 2 * QUARTER_TURN {
        sin_q(2 * QUARTER_TURN - w)
    } else if w < 3 * QUARTER_TURN {
        -sin_q(w - 2 * QUARTER_TURN)
    } else {
        -sin_q(4 * QUARTER_TURN - w)
    }
}

/// Wrapping commutes with negation: the wrap of `-a` is the reflection of
/// the wrap of `a`.
pub proof fn lemma_wrap_neg(a: int)
    ensures
        wrap_spec(-a) == if wrap_spec(a) == 0 {
            0int
        } else {
            (TURN as int) - wrap_spec(a)
        },
{
    let t = TURN as int;
    let w = wrap_spec(a);
    lemma_fundamental_div_mod(a, t);
    vstd::arithmetic::div_mod::lemma_mod_division_less_than_divisor(a, t);
    let k = a / t;
    assert(a == t * k + w);
    if w == 0 {
        assert(-a == t * (-k) + 0) by (nonlinear_arith)
            requires
                a == t * k,
        ;
        lemma_fundamental_div_mod_converse_mod(-a, t, -k, 0);
    } else {
        assert(-a == t * (-k - 1) + (t - w)) by (nonlinear_arith)
            requires
                a == t * k + w,
        ;
        lemma_fundamental_div_mod_converse_mod(-a, t, -k - 1, t - w);
    }
}

/// Adding a half turn moves the wrap by a half turn, modulo a full one.
pub proof fn lemma_wrap_add_half(a: int)
    ensures
        wrap_spec(a + HALF_TURN as int) == if wrap_spec(a) < HALF_TURN as int {
            wrap_spec(a) + HALF_TURN as int
        } else {
            wrap_spec(a) - HALF_TURN as int
        },
{
    let t = TURN as int;
    let h = HALF_TURN as int;
    let w = wrap_spec(a);
    lemma_fundamental_div_mod(a, t);
    vstd::arithmetic::div_mod::lemma_mod_division_less_than_divisor(a, t);
    let k = a / t;
    if w < h {
        assert(a + h == t * k + (w + h));
        lemma_fundamental_div_mod_converse_mod(a + h, t, k, w + h);
    } else {
        assert(a + h == t * (k + 1) + (w - h)) by (nonlinear_arith)
            requires
                a == t * k + w,
                t == 2 * h,
        ;
        lemma_fundamental_div_mod_converse_mod(a + h, t, k + 1, w - h);
    }
}

/// Sine is an odd function of the angle.
pub proof fn lemma_sin_neg(a: int)
    ensures
        sin_spec(-a) == -sin_spec(a),
{
    let t = TURN as int;
    let q = QUARTER_TURN as int;
    let w = wrap_spec(a);
    let w2 = wrap_spec(-a);
    lemma_wrap_neg(a);
    vstd::arithmetic::div_mod::lemma_mod_division_less_than_divisor(a, t);
    vstd::arithmetic::div_mod::lemma_mod_division_less_than_divisor(-a, t);
    assert(t == 4 * q);
    if w == 0 {
        assert(w2 == 0);
        assert(sin_q_spec(0) == 0);
    } else if w < q {
        assert(w2 == t - w);
        assert(sin_spec(-a) == -sin_q_spec(4 * q - w2));
        assert(4 * q - w2 == w);
    } else if w < 2 * q {
        assert(w2 == t - w);
        if w2 < 3 * q {
            assert(sin_spec(-a) == -sin_q_spec(w2 - 2 * q));
            assert(w2 - 2 * q == 2 * q - w);
        } else {
            assert(sin_spec(-a) == -sin_q_spec(4 * q - w2));
            assert(4 * q - w2 == w);
            assert(w == q);
            assert(2 * q - w == q);
        }
    } else if w < 3 * q {
        assert(w2 == t - w);
        if w2 < 2 * q {
            assert(sin_spec(-a) == sin_q_spec(2 * q - w2));
            assert(2 * q - w2 == w - 2 * q);
        } else {
            assert(w == 2 * q);
            assert(w2 == 2 * q);
            assert(sin_spec(-a) == -sin_q_spec(0));
            assert(sin_spec(a) == -sin_q_spec(0));
            assert(sin_q_spec(0) == 0);
        }
    } else {
        assert(w2 == t - w);
        if w2 < q {
            assert(sin_spec(-a) == sin_q_spec(w2));
            assert(sin_spec(a) == -sin_q_spec(4 * q - w));
            assert(w2 == 4 * q - w);
        } else {
            assert(w == 3 * q);
            assert(w2 == q);
            assert(sin_spec(-a) == sin_q_spec(2 * q - w2));
            assert(sin_spec(a) == -sin_q_spec(4 * q - w));
            assert(2 * q - w2 == q && 4 * q - w == q);
        }
    }
}

/// Shifting by a half turn negates the sine.
pub proof fn lemma_sin_half_shift(a: int)
    ensures
        sin_spec(a + HALF_TURN as int) == -sin_spec(a),
{
    let t = TURN as int;
    let w = wrap_spec(a);
    lemma_wrap_add_half(a);
    vstd::arithmetic::div_mod::lemma_mod_division_less_than_divisor(a, t);
    vstd::arithmetic::div_mod::lemma_mod_division_less_than_divisor(a + HALF_TURN as int, t);
}

/// The sine is symmetric about a quarter turn.
pub proof fn lemma_sin_quarter_mirror(x: int)
    ensures
        sin_spec(QUARTER_TURN as int + x) == sin_spec(QUARTER_TURN as int - x),
{
    let q = QUARTER_TURN as int;
    let h = HALF_TURN as int;
    lemma_sin_neg(x - q);
    lemma_sin_half_shift(x - q);
    assert((x - q) + h == q + x);
    assert(-(x - q) == q - x);
}

/// Cosine is an even function of the angle.
pub proof fn lemma_cos_neg(a: int)
    ensures
        cos_spec(-a) == cos_spec(a),
{
    let q = QUARTER_TURN as int;
    lemma_sin_quarter_mirror(a);
    assert(-a + q == q - a);
    assert(a + q == q + a);
}

/// Exact values at the four cardinal headings.
pub proof fn lemma_cardinal_values()
    ensures
        sin_spec(0) == 0,
        sin_spec(QUARTER_TURN as int) == SCALE as int,
        sin_spec(HALF_TURN as int) == 0,
        sin_spec(3 * QUARTER_TURN as int) == -(SCALE as int),
        cos_spec(0) == SCALE as int,
        cos_spec(QUARTER_TURN as int) == 0,
        cos_spec(HALF_TURN as int) == -(SCALE as int),
        cos_spec(3 * QUARTER_TURN as int) == 0,
{
    let t = TURN as int;
    let q = QUARTER_TURN as int;
    assert(wrap_spec(0) == 0);
    assert(wrap_spec(250_000int) == 250_000int);
    assert(wrap_spec(500_000int) == 500_000int);
    assert(wrap_spec(750_000int) == 750_000int);
    assert(wrap_spec(1_000_000int) == 0);
    assert(sin_q_spec(0) == 0);
    assert(250_000int * (2 * 250_000int - 250_000int) == 62_500_000_000int);
    assert(sin_q_spec(250_000int) == 250_000_000_000_000_000int / 250_000_000_000int);
    lemma_div_multiples_vanish(1_000_000int, 250_000_000_000int);
    assert(250_000_000_000int * 1_000_000int == 250_000_000_000_000_000int);
}

/// Cosine of an angle in micro-turns.
pub fn cos_fx(a: i64) -> (r: i64)
    requires
        -FX_MAX <= a <= FX_MAX,
    ensures
        r as int == cos_spec(a as int),
        -SCALE <= r <= SCALE,
{
    sin_fx(a + QUARTER_TURN)
}

} // verus!
