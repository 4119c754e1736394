//! Two-dimensional fixed-point vectors and points.

use vstd::prelude::*;

verus! {

use crate::fx::FX_MAX;
use crate::fx::abs_spec;
use crate::fx::clamped;
use crate::fx::fx_add_spec;
use crate::fx::fx_sub_spec;
use crate::fx::fx_mul_spec;
use crate::fx::fx_add;
use crate::fx::fx_sub;
use crate::fx::fx_mul;
use crate::fx::mag_u128;
use crate::fx::sqrt_floor;
use crate::fx::isqrt_u128;
use vstd::arithmetic::mul::lemma_mul_inequality;

/// A point or vector in the plane, both coordinates in fixed point.
#[derive(Clone, Copy, PartialEq, Eq, Structural, Debug)]
pub struct Vec2 {
    pub x: i64,
    pub y: i64,
}

impl Vec2 {
    /// Both coordinates within the representable fixed-point range.
    pub open spec fn in_range(self) -> bool {
        -(FX_MAX as int) <= self.x as int <= FX_MAX as int && -(FX_MAX as int) <= self.y as int
            <= FX_MAX as int
    }

    /// The origin.
    pub fn zero() -> (r: Vec2)
        ensures
            r.x == 0 && r.y == 0,
    {
        Vec2 { x: 0, y: 0 }
    }

    /// Componentwise sum, clamped.
    pub fn add(self, o: Vec2) -> (r: Vec2)
        ensures
            r.x as int == fx_add_spec(self.x as int, o.x as int),
            r.y as int == fx_add_spec(self.y as int, o.y as int),
            r.in_range(),
    {
        Vec2 { x: fx_add(self.x, o.x), y: fx_add(self.y, o.y) }
    }

    /// Componentwise difference, clamped.
    pub fn sub(self, o: Vec2) -> (r: Vec2)
        ensures
            r.x as int == fx_sub_spec(self.x as int, o.x as int),
            r.y as int == fx_sub_spec(self.y as int, o.y as int),
            r.in_range(),
    {
        Vec2 { x: fx_sub(self.x, o.x), y: fx_sub(self.y, o.y) }
    }

    /// Both components scaled by a fixed-point factor.
    pub fn scale_by(self, f: i64) -> (r: Vec2)
        ensures
            r.x as int == fx_mul_spec(self.x as int, f as int),
            r.y as int == fx_mul_spec(self.y as int, f as int),
            r.in_range(),
    {
        Vec2 { x: fx_mul(self.x, f), y: fx_mul(self.y, f) }
    }

    /// The squared length as an exact wide integer.
    pub open spec fn norm2_spec(self) -> int {
        (self.x as int) * (self.x as int) + (self.y as int) * (self.y as int)
    }

    /// The length of the vector, rounded down.
    pub open spec fn length_spec(self) -> int {
        sqrt_floor(self.norm2_spec())
    }

    /// Euclidean length, rounded down; zero exactly at the origin.
    pub fn length(self) -> (m: i64)
        requires
            self.in_range(),
        ensures
            m as int == self.length_spec(),
            m >= 0,
            m <= 1_500_000_000_000_000i64,
            (m == 0) <==> (self.x == 0 && self.y == 0),
            (m as int) * (m as int) <= self.norm2_spec(),
            self.norm2_spec() < (m as int + 1) * (m as int + 1),
    {
        let mx = mag_u128(self.x);
        let my = mag_u128(self.y);
        proof {
            lemma_mul_inequality(mx as int, FX_MAX as int, mx as int);
            lemma_mul_inequality(mx as int, FX_MAX as int, FX_MAX as int);
            lemma_mul_inequality(my as int, FX_MAX as int, my as int);
            lemma_mul_inequality(my as int, FX_MAX as int, FX_MAX as int);
            assert((mx as int) * (mx as int) <= (FX_MAX as int) * (FX_MAX as int))
                by (nonlinear_arith)
                requires
                    0 <= mx as int <= FX_MAX as int,
            ;
            assert((my as int) * (my as int) <= (FX_MAX as int) * (FX_MAX as int))
                by (nonlinear_arith)
                requires
                    0 <= my as int <= FX_MAX as int,
            ;
            assert((mx as int) * (mx as int) == (self.x as int) * (self.x as int))
                by (nonlinear_arith)
                requires
                    mx as int == abs_spec(self.x as int),
            ;
            assert((my as int) * (my as int) == (self.y as int) * (self.y as int))
                by (nonlinear_arith)
                requires
                    my as int == abs_spec(self.y as int),
            ;
        }
        let n: u128 = mx * mx + my * my;
        let mq = isqrt_u128(n);
        proof {
            if mq > 1_500_000_000_000_000u64 {
                assert((mq as int) * (mq as int) > 2_000_000_000_000_000_000_000_000_000_000int)
                    by (nonlinear_arith)
                    requires
                        mq as int > 1_500_000_000_000_000int,
                ;
            }
        }
        let m = mq as i64;
        proof {
            if self.x == 0 && self.y == 0 {
                assert(n == 0);
            } else {
                assert(n >= 1) by (nonlinear_arith)
                    requires
                        n as int == (mx as int) * (mx as int) + (my as int) * (my as int),
                        mx as int >= 0,
                        my as int >= 0,
                        mx as int >= 1 || my as int >= 1,
                ;
                if m == 0 {
                    assert((m as int + 1) * (m as int + 1) == 1) by (nonlinear_arith)
                        requires
                            m as int == 0,
                    ;
                }
            }
        }
        m
    }

    /// The dot product, exact in a wide integer.
    pub fn dot_wide(self, o: Vec2) -> (d: i128)
        requires
            self.in_range(),
            o.in_range(),
        ensures
            d as int == (self.x as int) * (o.x as int) + (self.y as int) * (o.y as int),
    {
        proof {
            let ax = self.x as int;
            let ay = self.y as int;
            let bx = o.x as int;
            let by = o.y as int;
            let w: int = FX_MAX as int;
            assert(ax * bx <= w * w && ax * bx >= -(w * w)) by (nonlinear_arith)
                requires
                    -w <= ax <= w,
                    -w <= bx <= w,
            ;
            assert(ay * by <= w * w && ay * by >= -(w * w)) by (nonlinear_arith)
                requires
                    -w <= ay <= w,
                    -w <= by <= w,
            ;
        }
        (self.x as i128) * (o.x as i128) + (self.y as i128) * (o.y as i128)
    }

    /// Distance between two points, rounded down.
    pub fn distance_to(self, o: Vec2) -> (d: i64)
        requires
            self.in_range(),
            o.in_range(),
        ensures
            d as int == self.sub_spec(o).length_spec(),
            d >= 0,
    {
        self.sub(o).length()
    }

    /// The componentwise difference at spec level.
    pub open spec fn sub_spec(self, o: Vec2) -> Vec2 {
        Vec2 {
            x: fx_sub_spec(self.x as int, o.x as int) as i64,
            y: fx_sub_spec(self.y as int, o.y as int) as i64,
        }
    }
}

} // verus!
