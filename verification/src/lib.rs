//! Top-down vehicle drift simulation: fixed-point kinematics, slip-driven
//! tire-trail recording and dust-particle emission.
//!
//! All physical quantities are fixed-point integers scaled by `fx::SCALE`
//! (one unit is a millionth). Angles are measured in micro-turns, so a half
//! turn (pi radians) is exactly `trig::HALF_TURN`. This keeps every frame
//! update deterministic and lets the whole simulation core be verified.

pub mod car;
pub mod decay;
pub mod drift_trail;
pub mod dust_system;
pub mod filtering;
pub mod fx;
pub mod laws;
pub mod misc;
pub mod pillar;
pub mod trig;
pub mod vec2;

use vstd::prelude::*;

verus! {

} // verus!
