//! Fixed-point arithmetic for the simulation.
//!
//! A quantity of one whole unit (one pixel, one second, one full turn of
//! angle, ...) is represented by `SCALE`. Multiplication truncates toward
//! zero, exactly like the corresponding integer division, and every result
//! is clamped into `[-FX_MAX, FX_MAX]` so that state values always stay
//! representable, however long the simulation runs.

use vstd::prelude::*;

verus! {

use vstd::arithmetic::div_mod::lemma_fundamental_div_mod;
use vstd::arithmetic::div_mod::lemma_div_multiples_vanish;
use vstd::arithmetic::mul::lemma_mul_inequality;

/// One whole unit, in micro-units.
pub const SCALE: i64 = 1_000_000;

/// Largest magnitude a fixed-point state value may take (a billion units).
pub const FX_MAX: i64 = 1_000_000_000_000_000;

/// Longest frame time the simulation accepts (one second); keeps per-frame
/// work and intermediate products bounded.
pub const MAX_DT: i64 = 1_000_000;

/// Truncating (round-toward-zero) division; meaningful for `b > 0`.
pub open spec fn sdiv(a: int, b: int) -> int {
    if a >= 0 {
        a / b
    } else {
        -((-a) / b)
    }
}

/// Magnitude of an integer.
pub open spec fn abs_spec(a: int) -> int {
    if a >= 0 {
        a
    } else {
        -a
    }
}

/// Clamp into the representable fixed-point range.
pub open spec fn clamped(x: int) -> int {
    if x > FX_MAX as int {
        FX_MAX as int
    } else if x < -(FX_MAX as int) {
        -(FX_MAX as int)
    } else {
        x
    }
}

/// Fixed-point product: `a * b` rescaled by one unit, truncated, clamped.
pub open spec fn fx_mul_spec(a: int, b: int) -> int {
    clamped(sdiv(a * b, SCALE as int))
}

/// Fixed-point sum, clamped.
pub open spec fn fx_add_spec(a: int, b: int) -> int {
    clamped(a + b)
}

/// Fixed-point difference, clamped.
pub open spec fn fx_sub_spec(a: int, b: int) -> int {
    clamped(a - b)
}

/// The magnitude of an `i64`, widened so that `i64::MIN` needs no special case.
pub(crate) fn mag_u128(a: i64) -> (r: u128)
    ensures
        r as int == abs_spec(a as int),
{
    if a >= 0 {
        a as u128
    } else {
        (-(a as i128)) as u128
    }
}

/// Clamp a wide intermediate value back into the fixed-point range.
fn clamp_i128(x: i128) -> (r: i64)
    ensures
        r as int == clamped(x as int),
{
    if x > FX_MAX as i128 {
        FX_MAX
    } else if x < -(FX_MAX as i128) {
        -FX_MAX
    } else {
        x as i64
    }
}

proof fn lemma_abs_mul(a: int, b: int)
    ensures
        abs_spec(a * b) == abs_spec(a) * abs_spec(b),
{
    if a >= 0 && b >= 0 {
        assert(a * b >= 0) by (nonlinear_arith)
            requires
                a >= 0,
                b >= 0,
        ;
    } else if a < 0 && b < 0 {
        assert(a * b == (-a) * (-b) && (-a) * (-b) >= 0) by (nonlinear_arith)
            requires
                a < 0,
                b < 0,
        ;
    } else if a < 0 {
        assert(a * b == -((-a) * b) && (-a) * b >= 0) by (nonlinear_arith)
            requires
                a < 0,
                b >= 0,
        ;
    } else {
        assert(a * b == -(a * (-b)) && a * (-b) >= 0) by (nonlinear_arith)
            requires
                a >= 0,
                b < 0,
        ;
    }
}

/// `sdiv` commutes with negation of the dividend.
pub proof fn lemma_sdiv_neg(a: int, b: int)
    requires
        b > 0,
    ensures
        sdiv(-a, b) == -sdiv(a, b),
{
    if a == 0 {
        assert(sdiv(0int, b) == 0);
    }
}

/// Fixed-point product: `r == fx_mul_spec(a, b)`.
pub fn fx_mul(a: i64, b: i64) -> (r: i64)
    ensures
        r as int == fx_mul_spec(a as int, b as int),
        -FX_MAX <= r <= FX_MAX,
{
    let neg = (a < 0) != (b < 0);
    let ma = mag_u128(a);
    let mb = mag_u128(b);
    proof {
        lemma_abs_mul(a as int, b as int);
        lemma_mul_inequality(ma as int, 0x8000_0000_0000_0000, mb as int);
        lemma_mul_inequality(mb as int, 0x8000_0000_0000_0000, 0x8000_0000_0000_0000);
        assert((ma as int) * (mb as int) == (mb as int) * (ma as int)) by (nonlinear_arith);
        assert((0x8000_0000_0000_0000int) * (mb as int) == (mb as int)
            * (0x8000_0000_0000_0000int)) by (nonlinear_arith);
    }
    let p: u128 = ma * mb;
    let q: u128 = p / (SCALE as u128);
    let qc: u128 = if q > FX_MAX as u128 {
        FX_MAX as u128
    } else {
        q
    };
    proof {
        assert(p as int == abs_spec((a as int) * (b as int)));
        assert(q as int == abs_spec((a as int) * (b as int)) / (SCALE as int));
        lemma_mul_sign(a as int, b as int);
    }
    if neg {
        let r = -(qc as i64);
        proof {
            let prod = (a as int) * (b as int);
            assert(prod <= 0);
            assert(sdiv(prod, SCALE as int) == -(q as int));
            assert(clamped(sdiv(prod, SCALE as int)) == -(qc as int));
        }
        r
    } else {
        let r = qc as i64;
        proof {
            let prod = (a as int) * (b as int);
            assert(prod >= 0);
            assert(sdiv(prod, SCALE as int) == q as int);
        }
        r
    }
}

/// The sign of a product follows the signs of its factors.
proof fn lemma_mul_sign(a: int, b: int)
    ensures
        ((a < 0) != (b < 0)) ==> a * b <= 0,
        ((a < 0) == (b < 0)) ==> a * b >= 0,
{
    if a >= 0 && b >= 0 {
        assert(a * b >= 0) by (nonlinear_arith)
            requires
                a >= 0,
                b >= 0,
        ;
    } else if a < 0 && b < 0 {
        assert(a * b >= 0) by (nonlinear_arith)
            requires
                a < 0,
                b < 0,
        ;
    } else if a < 0 {
        assert(a * b <= 0) by (nonlinear_arith)
            requires
                a < 0,
                b >= 0,
        ;
    } else {
        assert(a * b <= 0) by (nonlinear_arith)
            requires
                a >= 0,
                b < 0,
        ;
    }
}

/// Fixed-point sum: `r == fx_add_spec(a, b)`.
pub fn fx_add(a: i64, b: i64) -> (r: i64)
    ensures
        r as int == fx_add_spec(a as int, b as int),
        -FX_MAX <= r <= FX_MAX,
{
    clamp_i128(a as i128 + b as i128)
}

/// Fixed-point difference: `r == fx_sub_spec(a, b)`.
pub fn fx_sub(a: i64, b: i64) -> (r: i64)
    ensures
        r as int == fx_sub_spec(a as int, b as int),
        -FX_MAX <= r <= FX_MAX,
{
    clamp_i128(a as i128 - b as i128)
}

/// Truncating division of a wide value by a positive divisor.
pub fn sdiv_i128(a: i128, b: i128) -> (r: i128)
    requires
        b > 0,
        a > i128::MIN,
    ensures
        r == sdiv(a as int, b as int),
{
    if a >= 0 {
        ((a as u128) / (b as u128)) as i128
    } else {
        -((((-a) as u128) / (b as u128)) as i128)
    }
}

/// Multiplying a bounded value by a fraction below one unit strictly shrinks
/// its magnitude (and never flips its sign).
pub proof fn lemma_fx_mul_shrinks(a: int, f: int)
    requires
        -(FX_MAX as int) <= a <= FX_MAX as int,
        0 <= f < SCALE as int,
    ensures
        abs_spec(fx_mul_spec(a, f)) <= abs_spec(a),
        a != 0 ==> abs_spec(fx_mul_spec(a, f)) < abs_spec(a),
        a >= 0 ==> fx_mul_spec(a, f) >= 0,
        a <= 0 ==> fx_mul_spec(a, f) <= 0,
        a == 0 ==> fx_mul_spec(a, f) == 0,
{
    let s = SCALE as int;
    let p = abs_spec(a);
    lemma_abs_mul(a, f);
    lemma_mul_sign(a, f);
    assert(p * f >= 0) by (nonlinear_arith)
        requires
            p >= 0,
            f >= 0,
    ;
    lemma_fundamental_div_mod(p * f, s);
    let q = (p * f) / s;
    assert(q >= 0) by {
        if q < 0 {
            assert(s * q <= s * -1) by (nonlinear_arith)
                requires
                    q <= -1,
                    s > 0,
            ;
        }
    }
    if p > 0 {
        // p * f <= p * (s - 1), so q <= p - 1.
        lemma_mul_inequality(f, s - 1, p);
        assert(f * p == p * f && (s - 1) * p == p * s - p) by (nonlinear_arith);
        assert(q <= p - 1) by {
            if q >= p {
                assert(s * q >= s * p) by (nonlinear_arith)
                    requires
                        q >= p,
                        s > 0,
                ;
                assert(s * p == p * s) by (nonlinear_arith);
            }
        }
    }
    if p == 0 {
        assert(p * f == 0) by (nonlinear_arith)
            requires
                p == 0,
        ;
        assert(q == 0);
    }
    assert(0 <= q <= FX_MAX as int);
    if a >= 0 {
        assert(a * f == p * f);
        assert(sdiv(a * f, s) == q);
        assert(fx_mul_spec(a, f) == q);
    } else {
        assert(a * f <= 0);
        assert(abs_spec(a * f) == p * f);
        assert(a * f == -(p * f));
        assert(sdiv(a * f, s) == -q);
        assert(fx_mul_spec(a, f) == -q);
    }
}

/// Negating either factor negates a fixed-point product.
pub proof fn lemma_fx_mul_neg(a: int, b: int)
    ensures
        fx_mul_spec(-a, b) == -fx_mul_spec(a, b),
        fx_mul_spec(a, -b) == -fx_mul_spec(a, b),
{
    assert((-a) * b == -(a * b) && a * (-b) == -(a * b)) by (nonlinear_arith);
    lemma_sdiv_neg(a * b, SCALE as int);
}

/// Scaling a nonnegative bounded value by a fraction of at most one unit
/// never grows it.
pub proof fn lemma_fx_mul_unit_bound(a: int, f: int)
    requires
        0 <= a <= FX_MAX as int,
        0 <= f <= SCALE as int,
    ensures
        0 <= fx_mul_spec(a, f) <= a,
{
    if f < SCALE as int {
        lemma_fx_mul_shrinks(a, f);
    } else {
        lemma_div_multiples_vanish(a, SCALE as int);
        assert(a * (SCALE as int) == (SCALE as int) * a) by (nonlinear_arith);
    }
}

/// Integer square root, by definition the largest `s` with `s * s <= n`.
pub open spec fn sqrt_floor(n: int) -> int
    decreases n,
{
    if n <= 0 {
        0
    } else {
        let s = sqrt_floor(n - 1);
        if (s + 1) * (s + 1) <= n {
            s + 1
        } else {
            s
        }
    }
}

pub proof fn lemma_sqrt_floor_bounds(n: int)
    requires
        n >= 0,
    ensures
        sqrt_floor(n) >= 0,
        sqrt_floor(n) * sqrt_floor(n) <= n,
        n < (sqrt_floor(n) + 1) * (sqrt_floor(n) + 1),
    decreases n,
{
    if n == 0 {
    } else {
        lemma_sqrt_floor_bounds(n - 1);
        let s = sqrt_floor(n - 1);
        if (s + 1) * (s + 1) <= n {
            assert((s + 1) + 1 >= 1);
            assert(n - 1 < (s + 1) * (s + 1));
            assert((s + 1) * (s + 1) < ((s + 1) + 1) * ((s + 1) + 1)) by (nonlinear_arith)
                requires
                    s >= 0,
            ;
        }
    }
}

pub proof fn lemma_sqrt_floor_unique(n: int, r: int)
    requires
        n >= 0,
        r >= 0,
        r * r <= n,
        n < (r + 1) * (r + 1),
    ensures
        r == sqrt_floor(n),
{
    lemma_sqrt_floor_bounds(n);
    let s = sqrt_floor(n);
    if r < s {
        assert((r + 1) * (r + 1) <= s * s) by (nonlinear_arith)
            requires
                0 <= r,
                r < s,
        ;
    }
    if s < r {
        assert((s + 1) * (s + 1) <= r * r) by (nonlinear_arith)
            requires
                0 <= s,
                s < r,
        ;
    }
}

/// The square root of a perfect square is the magnitude of its root.
pub proof fn lemma_sqrt_of_square(v: int)
    ensures
        sqrt_floor(v * v) == abs_spec(v),
{
    let p = abs_spec(v);
    assert(v * v == p * p) by (nonlinear_arith)
        requires
            p == v || p == -v,
    ;
    assert(p * p < (p + 1) * (p + 1)) by (nonlinear_arith)
        requires
            p >= 0,
    ;
    lemma_sqrt_floor_unique(p * p, p);
}

/// Integer square root of a wide nonnegative value.
pub fn isqrt_u128(n: u128) -> (r: u64)
    requires
        n <= 4_000_000_000_000_000_000_000_000_000_000u128,
    ensures
        r as int == sqrt_floor(n as int),
        (r as int) * (r as int) <= n as int,
        (n as int) < (r as int + 1) * (r as int + 1),
{
    let mut lo: u128 = 0;
    let mut hi: u128 = 2_000_000_000_000_001;
    proof {
        assert((hi as int) * (hi as int) > n as int) by (nonlinear_arith)
            requires
                hi == 2_000_000_000_000_001u128,
                n <= 4_000_000_000_000_000_000_000_000_000_000u128,
        ;
    }
    while lo + 1 < hi
        invariant
            lo < hi,
            hi <= 2_000_000_000_000_001,
            (lo as int) * (lo as int) <= n as int,
            (n as int) < (hi as int) * (hi as int),
        decreases hi - lo,
    {
        let mid = lo + (hi - lo) / 2;
        proof {
            assert(lo < mid < hi);
            assert((mid as int) * (mid as int) <= (2_000_000_000_000_001int)
                * (2_000_000_000_000_001int)) by (nonlinear_arith)
                requires
                    0 <= mid as int <= 2_000_000_000_000_001int,
            ;
        }
        if mid * mid <= n {
            lo = mid;
        } else {
            hi = mid;
        }
    }
    proof {
        lemma_sqrt_floor_unique(n as int, lo as int);
    }
    lo as u64
}

} // verus!
