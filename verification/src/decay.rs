//! Fixed-point exponential decay.
//!
//! `exp_neg(x)` approximates `e^(-x)` for a nonnegative fixed-point `x`,
//! scaled by `fx::SCALE`: the fractional part of `x` goes through a
//! four-term alternating series, and each whole unit multiplies by a
//! constant `1/e`. The result always lies in `[0, SCALE]`, and is strictly
//! below one unit whenever `x > 0` — the fact the resistance model needs so
//! that drag always shrinks speed.

use vstd::prelude::*;

verus! {

use crate::fx::SCALE;
use vstd::arithmetic::div_mod::lemma_div_pos_is_pos;
use vstd::arithmetic::div_mod::lemma_div_is_ordered;
use vstd::arithmetic::div_mod::lemma_div_denominator;
use vstd::arithmetic::div_mod::lemma_div_multiples_vanish;
use vstd::arithmetic::div_mod::lemma_div_nonincreasing;

/// One unit divided by Euler's number, rounded down.
pub const E_INV: i64 = 367_879;

/// Arguments at or above this (fourteen units) decay to exactly zero.
pub const EXP_ARG_CUTOFF: i64 = 14_000_000;

/// Series core on the fractional part: `e^(-r)` for `r` in `[0, SCALE]`,
/// truncated term by term and floored at zero.
pub open spec fn exp_series_spec(r: int) -> int {
    let s = SCALE as int;
    let raw = s - r + (r * r) / (2 * s) - (r * r * r) / (6 * s * s) + (r * r * r * r) / (24 * s * s
        * s);
    if raw < 0 {
        0
    } else {
        raw
    }
}

/// Repeatedly multiply by `1/e`, once per whole unit of the argument.
pub open spec fn exp_iter_spec(n: nat, acc: int) -> int
    decreases n,
{
    if n == 0 {
        acc
    } else {
        exp_iter_spec((n - 1) as nat, (acc * (E_INV as int)) / (SCALE as int))
    }
}

/// `e^(-x)` in fixed point, for `x >= 0`.
pub open spec fn exp_neg_spec(x: int) -> int {
    if x >= EXP_ARG_CUTOFF as int {
        0
    } else {
        exp_iter_spec((x / (SCALE as int)) as nat, exp_series_spec(x % (SCALE as int)))
    }
}

pub proof fn lemma_exp_series_bounds(r: int)
    requires
        0 <= r <= SCALE as int,
    ensures
        0 <= exp_series_spec(r) <= SCALE as int,
        r >= 1 ==> exp_series_spec(r) < SCALE as int,
{
    let s = SCALE as int;
    let t2 = (r * r) / (2 * s);
    let t3 = (r * r * r) / (6 * s * s);
    let t4 = (r * r * r * r) / (24 * s * s * s);
    assert(r * r >= 0 && r * r <= r * s) by (nonlinear_arith)
        requires
            0 <= r <= s,
    ;
    assert(r * r * r >= 0) by (nonlinear_arith)
        requires
            r >= 0,
    ;
    assert(r * r * r * r >= 0 && r * r * r * r <= r * (s * s * s)) by (nonlinear_arith)
        requires
            0 <= r <= s,
    ;
    lemma_div_pos_is_pos(r * r, 2 * s);
    lemma_div_pos_is_pos(r * r * r, 6 * s * s);
    lemma_div_pos_is_pos(r * r * r * r, 24 * s * s * s);
    // t2 <= r / 2
    lemma_div_is_ordered(r * r, r * s, 2 * s);
    lemma_div_denominator(r * s, s, 2);
    lemma_div_multiples_vanish(r, s);
    assert(s * r == r * s) by (nonlinear_arith);
    assert(s * 2 == 2 * s);
    assert(t2 <= r / 2);
    // t4 <= r / 24
    lemma_div_is_ordered(r * r * r * r, r * (s * s * s), 24 * (s * s * s));
    lemma_div_denominator(r * (s * s * s), s * s * s, 24);
    lemma_div_multiples_vanish(r, s * s * s);
    assert((s * s * s) * r == r * (s * s * s)) by (nonlinear_arith);
    assert((s * s * s) * 24 == 24 * (s * s * s)) by (nonlinear_arith);
    assert(24 * s * s * s == 24 * (s * s * s)) by (nonlinear_arith);
    assert(t4 <= r / 24);
    if r >= 1 {
        assert(r / 2 + r / 24 <= r - 1);
    }
}

pub proof fn lemma_exp_iter_bounds(n: nat, acc: int)
    requires
        0 <= acc <= SCALE as int,
    ensures
        0 <= exp_iter_spec(n, acc) <= SCALE as int,
        n >= 1 ==> exp_iter_spec(n, acc) <= E_INV as int,
        exp_iter_spec(n, acc) <= acc,
    decreases n,
{
    let s = SCALE as int;
    if n == 0 {
    } else {
        let next = (acc * (E_INV as int)) / s;
        assert(acc * (E_INV as int) >= 0 && acc * (E_INV as int) <= s * (E_INV as int))
            by (nonlinear_arith)
            requires
                0 <= acc <= s,
        ;
        lemma_div_pos_is_pos(acc * (E_INV as int), s);
        lemma_div_is_ordered(acc * (E_INV as int), s * (E_INV as int), s);
        lemma_div_multiples_vanish(E_INV as int, s);
        assert(next <= E_INV as int);
        // next <= acc as well, since E_INV < SCALE
        assert(acc * (E_INV as int) <= acc * s) by (nonlinear_arith)
            requires
                acc >= 0,
                E_INV as int <= s,
        ;
        lemma_div_is_ordered(acc * (E_INV as int), acc * s, s);
        lemma_div_multiples_vanish(acc, s);
        assert(s * acc == acc * s) by (nonlinear_arith);
        lemma_exp_iter_bounds((n - 1) as nat, next);
    }
}

pub proof fn lemma_exp_neg_bounds(x: int)
    requires
        x >= 0,
    ensures
        0 <= exp_neg_spec(x) <= SCALE as int,
        x > 0 ==> exp_neg_spec(x) < SCALE as int,
{
    let s = SCALE as int;
    if x >= EXP_ARG_CUTOFF as int {
    } else {
        let n = (x / s) as nat;
        let r = x % s;
        vstd::arithmetic::div_mod::lemma_mod_division_less_than_divisor(x, s);
        lemma_div_pos_is_pos(x, s);
        lemma_exp_series_bounds(r);
        lemma_exp_iter_bounds(n, exp_series_spec(r));
        if x > 0 {
            if n == 0 {
                vstd::arithmetic::div_mod::lemma_fundamental_div_mod(x, s);
                assert(r == x);
            }
        }
    }
}

/// The series core, executable.
fn exp_series(r: i64) -> (v: i64)
    requires
        0 <= r <= SCALE,
    ensures
        v as int == exp_series_spec(r as int),
        0 <= v <= SCALE,
        r >= 1 ==> v < SCALE,
{
    proof {
        lemma_exp_series_bounds(r as int);
        let s = SCALE as int;
        let ri = r as int;
        assert(ri * ri <= 1_000_000_000_000int && ri * ri * ri <= 1_000_000_000_000_000_000int)
            by (nonlinear_arith)
            requires
                0 <= ri <= 1_000_000int,
        ;
        assert((ri * ri * ri) * ri <= 1_000_000_000_000_000_000_000_000int) by (nonlinear_arith)
            requires
                0 <= ri <= 1_000_000int,
                ri * ri * ri <= 1_000_000_000_000_000_000int,
        ;
        lemma_div_nonincreasing(ri * ri, 2 * s);
        lemma_div_nonincreasing(ri * ri * ri, 6 * s * s);
        lemma_div_nonincreasing(ri * ri * ri * ri, 24 * s * s * s);
        lemma_div_pos_is_pos(ri * ri, 2 * s);
        lemma_div_pos_is_pos(ri * ri * ri, 6 * s * s);
        lemma_div_pos_is_pos(ri * ri * ri * ri, 24 * s * s * s);
    }
    let ru = r as u64;
    let t2 = (ru * ru) / (2 * (SCALE as u64));
    let r3 = ru * ru * ru;
    let t3 = r3 / (6 * (SCALE as u64) * (SCALE as u64));
    let r4: u128 = (r3 as u128) * (ru as u128);
    let t4 = (r4 / (24 * (SCALE as u128) * (SCALE as u128) * (SCALE as u128))) as u64;
    let raw = SCALE - r + (t2 as i64) - (t3 as i64) + (t4 as i64);
    if raw < 0 {
        0
    } else {
        raw
    }
}

/// `e^(-x)` in fixed point, executable.
pub fn exp_neg(x: i64) -> (v: i64)
    requires
        0 <= x,
    ensures
        v as int == exp_neg_spec(x as int),
        0 <= v <= SCALE,
        x > 0 ==> v < SCALE,
{
    proof {
        lemma_exp_neg_bounds(x as int);
    }
    if x >= EXP_ARG_CUTOFF {
        return 0;
    }
    let n = ((x as u64) / (SCALE as u64)) as u32;
    let rem = ((x as u64) % (SCALE as u64)) as i64;
    proof {
        vstd::arithmetic::div_mod::lemma_mod_division_less_than_divisor(x as int, SCALE as int);
        lemma_div_pos_is_pos(x as int, SCALE as int);
        lemma_div_nonincreasing(x as int, SCALE as int);
    }
    let base = exp_series(rem);
    let mut acc = base;
    let mut i: u32 = 0;
    proof {
        lemma_exp_iter_bounds(n as nat, base as int);
    }
    while i < n
        invariant
            0 <= i <= n,
            0 <= acc <= SCALE,
            exp_iter_spec((n - i) as nat, acc as int) == exp_iter_spec(n as nat, base as int),
        decreases n - i,
    {
        proof {
            let s = SCALE as int;
            let a = acc as int;
            let e = E_INV as int;
            assert(exp_iter_spec((n - i) as nat, a) == exp_iter_spec((n - i - 1) as nat, (a * e)
                / s));
            assert(a * e >= 0 && a * e <= s * e) by (nonlinear_arith)
                requires
                    0 <= a <= s,
                    e >= 0,
            ;
            lemma_div_pos_is_pos(a * e, s);
            lemma_div_is_ordered(a * e, s * e, s);
            lemma_div_multiples_vanish(e, s);
        }
        acc = (((acc as u64) * (E_INV as u64)) / (SCALE as u64)) as i64;
        i = i + 1;
    }
    acc
}

} // verus!
