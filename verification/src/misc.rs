//! Angle and vector helpers: polar decomposition, rotation, and
//! angle-difference normalization.

use vstd::prelude::*;

verus! {

use crate::fx::FX_MAX;
use crate::fx::fx_mul_spec;
use crate::fx::fx_add_spec;
use crate::fx::fx_sub_spec;
use crate::fx::fx_mul;
use crate::fx::fx_add;
use crate::fx::fx_sub;
use crate::trig::TURN;
use crate::trig::HALF_TURN;
use crate::trig::sin_spec;
use crate::trig::cos_spec;
use crate::trig::sin_fx;
use crate::trig::cos_fx;
use crate::vec2::Vec2;

/// The x component of a magnitude laid along a heading angle.
pub open spec fn components_x_spec(mag: int, angle: int) -> int {
    fx_mul_spec(mag, sin_spec(angle))
}

/// The y component of a magnitude laid along a heading angle.
pub open spec fn components_y_spec(mag: int, angle: int) -> int {
    fx_mul_spec(mag, cos_spec(angle))
}

/// Decompose a magnitude along a heading: `(mag sin a, mag cos a)`.
pub fn get_components(mag: i64, angle: i64) -> (r: Vec2)
    requires
        -FX_MAX <= angle <= FX_MAX,
    ensures
        r.x as int == components_x_spec(mag as int, angle as int),
        r.y as int == components_y_spec(mag as int, angle as int),
        r.in_range(),
{
    Vec2 { x: fx_mul(mag, sin_fx(angle)), y: fx_mul(mag, cos_fx(angle)) }
}

/// The x coordinate of a vector rotated by an angle.
pub open spec fn rotate_x_spec(v: Vec2, angle: int) -> int {
    fx_sub_spec(fx_mul_spec(v.x as int, cos_spec(angle)), fx_mul_spec(v.y as int, sin_spec(angle)))
}

/// The y coordinate of a vector rotated by an angle.
pub open spec fn rotate_y_spec(v: Vec2, angle: int) -> int {
    fx_add_spec(fx_mul_spec(v.x as int, sin_spec(angle)), fx_mul_spec(v.y as int, cos_spec(angle)))
}

/// Rotate a vector by an angle in micro-turns.
pub fn rotate_vec(v: Vec2, angle: i64) -> (r: Vec2)
    requires
        -FX_MAX <= angle <= FX_MAX,
    ensures
        r.x as int == rotate_x_spec(v, angle as int),
        r.y as int == rotate_y_spec(v, angle as int),
        r.in_range(),
{
    let a_c = cos_fx(angle);
    let a_s = sin_fx(angle);
    Vec2 {
        x: fx_sub(fx_mul(v.x, a_c), fx_mul(v.y, a_s)),
        y: fx_add(fx_mul(v.x, a_s), fx_mul(v.y, a_c)),
    }
}

/// The signed difference of two angles, folded once toward `(-HALF_TURN,
/// HALF_TURN]` so small disagreements never read as a whole extra turn.
pub open spec fn angle_diff_spec(target: int, current: int) -> int {
    let d = target - current;
    if d > HALF_TURN as int {
        d - TURN as int
    } else if d < -(HALF_TURN as int) {
        d + TURN as int
    } else {
        d
    }
}

/// Difference between two headings, folded once about a half turn.
pub fn get_angle_diff(target: i64, current: i64) -> (r: i64)
    requires
        -FX_MAX <= target <= FX_MAX,
        -FX_MAX <= current <= FX_MAX,
    ensures
        r as int == angle_diff_spec(target as int, current as int),
{
    let d = target - current;
    if d > HALF_TURN {
        d - TURN
    } else if d < -HALF_TURN {
        d + TURN
    } else {
        d
    }
}

} // verus!
