//! Pillars the player drifts around. The scoring rule that consumes them
//! lives with the scene orchestrator; the library only holds their state
//! and the distance query.

use vstd::prelude::*;

verus! {

use crate::fx::FX_MAX;
use crate::vec2::Vec2;

/// Radius a pillar gets when none is specified (7 px).
pub const DEF_PILLAR_RADIUS: i64 = 7_000_000;

/// One pillar: a circle the player can circle for points.
pub struct Pillar {
    pub pos: Vec2,
    pub radius: i64,
    /// Fraction of a full circle completed around this pillar.
    pub progress: i64,
    /// Heading from the pillar to the player when scoring started.
    pub player_start_angle: i64,
    /// Whether a full circle has been completed.
    pub done: bool,
}

impl Pillar {
    /// A pillar at a position with a radius; no progress yet.
    pub fn new(p: Vec2, r: i64) -> (res: Pillar)
        requires
            p.in_range(),
            0 <= r <= FX_MAX,
        ensures
            res.pos == p,
            res.radius == r,
            res.progress == 0,
            res.player_start_angle == 0,
            res.done == false,
    {
        Pillar { pos: p, radius: r, progress: 0, player_start_angle: 0, done: false }
    }

    /// Distance from a point to this pillar's center, rounded down.
    pub fn distance_to(&self, point: Vec2) -> (d: i64)
        requires
            self.pos.in_range(),
            point.in_range(),
        ensures
            d as int == point.sub_spec(self.pos).length_spec(),
            d >= 0,
    {
        point.distance_to(self.pos)
    }
}

impl Default for Pillar {
    /// The reference pillar: mid-field, default radius.
    fn default() -> (res: Pillar)
        ensures
            res.pos == (Vec2 { x: 300_000_000, y: 400_000_000 }),
            res.radius == DEF_PILLAR_RADIUS,
            res.progress == 0,
            res.player_start_angle == 0,
            res.done == false,
    {
        Pillar {
            pos: Vec2 { x: 300_000_000, y: 400_000_000 },
            radius: DEF_PILLAR_RADIUS,
            progress: 0,
            player_start_angle: 0,
            done: false,
        }
    }
}

} // verus!
