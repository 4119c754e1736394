//! Vehicle dynamics: the per-frame integrator.
//!
//! `Car::update` advances position, velocity, heading and angular velocity
//! from one frame's input snapshot, derives the slip value `perp`, and
//! drives the trail recorder and the dust emitters while drifting. The
//! whole kinematic effect of one frame is pinned down by the pure spec
//! function `kin_step`, which the laws about decay, symmetry and the
//! stationary state are proved against.

use vstd::prelude::*;

verus! {

use crate::fx::SCALE;
use crate::fx::FX_MAX;
use crate::fx::MAX_DT;
use crate::fx::sdiv;
use crate::fx::abs_spec;
use crate::fx::fx_add_spec;
use crate::fx::fx_mul_spec;
use crate::fx::fx_add;
use crate::fx::fx_mul;
use crate::fx::sdiv_i128;
use crate::fx::sqrt_floor;
use crate::trig::QUARTER_TURN;
use crate::trig::HALF_TURN;
use crate::trig::sin_spec;
use crate::trig::cos_spec;
use crate::trig::sin_fx;
use crate::decay::exp_neg_spec;
use crate::decay::exp_neg;
use crate::vec2::Vec2;
use crate::misc::get_components;
use crate::misc::rotate_x_spec;
use crate::misc::rotate_y_spec;
use crate::misc::rotate_vec;
use crate::drift_trail::TrailRecorder;
use crate::drift_trail::DriftTrailSet;
use crate::drift_trail::trail_fresh;
use crate::drift_trail::TRAIL_PLACEMENT_INTERVAL;
use crate::dust_system::CarDustSystems;
use crate::dust_system::ParticleSystem;
use crate::dust_system::particle_fresh;
use crate::dust_system::spawned_ok;
use crate::dust_system::DUST_PARTICLES_EMM_RATE;

/// Forward acceleration at full throttle (500 px/s^2).
pub const CAR_ACC: i64 = 500_000_000;

/// Sprite width (36 px).
pub const CAR_W: i64 = 36_000_000;

/// Sprite height (56 px).
pub const CAR_H: i64 = 56_000_000;

pub const HALF_CAR_W: i64 = 18_000_000;

pub const HALF_CAR_H: i64 = 28_000_000;

/// Offset of the center of mass behind the sprite center (8 px).
pub const COM_OFF: i64 = 8_000_000;

pub const FRONT_WHEEL_X_OFF: i64 = 5_000_000;

pub const FRONT_WHEEL_Y_OFF: i64 = 8_000_000;

pub const BACK_WHEEL_X_OFF: i64 = 5_000_000;

pub const BACK_WHEEL_Y_OFF: i64 = 15_000_000;

/// Peak steering rate: 7 pi radians per second, which is exactly 3.5 turns
/// per second in micro-turns.
pub const CAR_TURN_SPD: i64 = 3_500_000;

/// Natural logarithm of the angular damping base (ln 100).
pub const LN_DAMP_BASE: i64 = 4_605_170;

/// How strongly lateral scrub pulls velocity back toward the heading.
pub const LATERAL_GAIN: i64 = 500_000_000;

/// Slip magnitude above which the car counts as drifting (0.35).
pub const DRIFT_PERP_THRESHOLD: i64 = 350_000;

/// Speed above which the car counts as drifting (10 px/s).
pub const DRIFT_SPEED_THRESHOLD: i64 = 10_000_000;

/// Below this speed the velocity snaps to exactly zero (0.2 px/s).
pub const SNAP_SPEED_EPS: i64 = 200_000;

/// Divisor turning speed into steering authority (full authority from
/// 200 px/s up).
pub const SPEED_NORM_DIVISOR: i64 = 200;

/// Where a reset puts the car.
pub const RESET_POS_X: i64 = 100_000_000;

pub const RESET_POS_Y: i64 = 600_000_000;

/// One frame's input snapshot, polled by the scene orchestrator.
#[derive(Clone, Copy, PartialEq, Eq, Structural, Debug)]
pub struct InputState {
    pub forward: bool,
    pub reverse: bool,
    pub left: bool,
    pub right: bool,
}

impl InputState {
    /// No key held.
    pub fn none() -> (r: InputState)
        ensures
            r == (InputState { forward: false, reverse: false, left: false, right: false }),
    {
        InputState { forward: false, reverse: false, left: false, right: false }
    }
}

/// The purely kinematic state of the vehicle, as mathematical integers.
pub ghost struct KinView {
    pub pos_x: int,
    pub pos_y: int,
    pub vel_x: int,
    pub vel_y: int,
    pub vel_mag: int,
    pub throttle: int,
    pub angle: int,
    pub angular_vel: int,
    pub angular_acc: int,
    pub perp: int,
    pub drifting: bool,
}

/// The throttle chosen by this frame's keys: reverse wins over forward,
/// neither means coasting.
pub open spec fn throttle_spec(inp: InputState) -> int {
    if inp.reverse {
        -(SCALE as int)
    } else if inp.forward {
        SCALE as int
    } else {
        0
    }
}

/// The x component of the lateral (sideways) axis of a heading.
pub open spec fn lat_x(angle: int) -> int {
    sin_spec(angle + QUARTER_TURN as int)
}

/// The y component of the lateral axis of a heading.
pub open spec fn lat_y(angle: int) -> int {
    cos_spec(angle + QUARTER_TURN as int)
}

/// Apply this frame's throttle along the current heading.
pub open spec fn accel_phase(k: KinView, inp: InputState, dt: int) -> KinView {
    if inp.forward || inp.reverse {
        let thr = throttle_spec(inp);
        let dv = fx_mul_spec(fx_mul_spec(dt, thr), CAR_ACC as int);
        KinView {
            vel_x: fx_add_spec(k.vel_x, fx_mul_spec(dv, sin_spec(k.angle))),
            vel_y: fx_add_spec(k.vel_y, fx_mul_spec(dv, cos_spec(k.angle))),
            throttle: thr,
            ..k
        }
    } else {
        KinView { throttle: 0, ..k }
    }
}

/// Recompute the speed magnitude and clear the angular acceleration.
pub open spec fn mag_phase(k: KinView) -> KinView {
    KinView { vel_mag: sqrt_floor(k.vel_x * k.vel_x + k.vel_y * k.vel_y), angular_acc: 0, ..k }
}

/// The slip value: the velocity direction's component along the lateral
/// axis, clamped into one unit either way. Only meaningful for
/// `vel_mag > 0`.
pub open spec fn perp_spec(k: KinView) -> int {
    let dot = k.vel_x * lat_x(k.angle) + k.vel_y * lat_y(k.angle);
    let q = sdiv(dot, k.vel_mag);
    if q > SCALE as int {
        SCALE as int
    } else if q < -(SCALE as int) {
        -(SCALE as int)
    } else {
        q
    }
}

/// Combined friction: angular damping softened by slip, lateral scrub
/// proportional to slip, then uniform exponential drag.
pub open spec fn resistance_phase(k: KinView, dt: int) -> KinView {
    let ap = abs_spec(k.perp);
    let damp = exp_neg_spec(fx_mul_spec(fx_mul_spec(dt, 2 * (SCALE as int) - ap), LN_DAMP_BASE as int));
    let d = fx_mul_spec(fx_mul_spec(0 - k.perp, dt), LATERAL_GAIN as int);
    let vx1 = fx_add_spec(k.vel_x, fx_mul_spec(d, lat_x(k.angle)));
    let vy1 = fx_add_spec(k.vel_y, fx_mul_spec(d, lat_y(k.angle)));
    let f = exp_neg_spec(dt);
    KinView {
        angular_vel: fx_mul_spec(k.angular_vel, damp),
        vel_x: fx_mul_spec(vx1, f),
        vel_y: fx_mul_spec(vy1, f),
        ..k
    }
}

/// The steering authority at a speed: the speed as a fraction of the
/// normalization speed, capped at one unit.
pub open spec fn steer_auth_spec(vel_mag: int) -> int {
    let a = sdiv(vel_mag, SPEED_NORM_DIVISOR as int);
    if a > SCALE as int {
        SCALE as int
    } else {
        a
    }
}

/// Accumulate angular acceleration from held steering keys; both apply
/// when both are held, cancelling exactly.
pub open spec fn steer_phase(k: KinView, inp: InputState, dt: int) -> KinView {
    let auth = steer_auth_spec(k.vel_mag);
    let k1 = if inp.left {
        KinView {
            angular_acc: auth,
            angular_vel: fx_add_spec(
                k.angular_vel,
                fx_mul_spec(fx_mul_spec(dt, auth), CAR_TURN_SPD as int),
            ),
            ..k
        }
    } else {
        k
    };
    if inp.right {
        KinView {
            angular_acc: 0 - auth,
            angular_vel: fx_add_spec(
                k1.angular_vel,
                fx_mul_spec(fx_mul_spec(dt, 0 - auth), CAR_TURN_SPD as int),
            ),
            ..k1
        }
    } else {
        k1
    }
}

/// Snap to a dead stop when the (pre-resistance) speed fell under the
/// epsilon, so the car never micro-drifts at rest.
pub open spec fn snap_phase(k: KinView) -> KinView {
    if k.vel_mag < SNAP_SPEED_EPS as int {
        KinView { vel_x: 0, vel_y: 0, ..k }
    } else {
        k
    }
}

/// Integrate heading and position by one frame.
pub open spec fn integrate_phase(k: KinView, dt: int) -> KinView {
    KinView {
        angle: fx_add_spec(k.angle, fx_mul_spec(k.angular_vel, dt)),
        pos_x: fx_add_spec(k.pos_x, fx_mul_spec(k.vel_x, dt)),
        pos_y: fx_add_spec(k.pos_y, fx_mul_spec(k.vel_y, dt)),
        ..k
    }
}

/// The kinematic state after slip and drift have been derived but before
/// resistance: the state whose flag and slip drive the frame's effects.
pub open spec fn derive_phase(k: KinView) -> KinView {
    let perp = perp_spec(k);
    KinView {
        perp,
        drifting: abs_spec(perp) > DRIFT_PERP_THRESHOLD as int && k.vel_mag
            > DRIFT_SPEED_THRESHOLD as int,
        ..k
    }
}

/// Everything one frame does to the kinematic state before the final
/// integration. At a standstill the slip is not recomputed (no division
/// happens) and the whole moving-phase work is skipped.
pub open spec fn pre_integrate_phase(k: KinView, inp: InputState, dt: int) -> KinView {
    let km = mag_phase(accel_phase(k, inp, dt));
    if km.vel_mag > 0 {
        snap_phase(steer_phase(resistance_phase(derive_phase(km), dt), inp, dt))
    } else {
        km
    }
}

/// One whole frame of vehicle kinematics.
pub open spec fn kin_step(k: KinView, inp: InputState, dt: int) -> KinView {
    integrate_phase(pre_integrate_phase(k, inp, dt), dt)
}

/// The trail node recorded at `now` for a car at `pos` with heading
/// `angle`: the four wheel-contact points in world space.
pub open spec fn wheel_node_spec(pos: Vec2, angle: int, now: int) -> DriftTrailSet {
    DriftTrailSet {
        left_front: wheel_point_spec(pos, angle, -HALF_CAR_W + FRONT_WHEEL_X_OFF, HALF_CAR_H
            - COM_OFF - FRONT_WHEEL_Y_OFF),
        right_front: wheel_point_spec(pos, angle, HALF_CAR_W - FRONT_WHEEL_X_OFF, HALF_CAR_H
            - COM_OFF - FRONT_WHEEL_Y_OFF),
        left_back: wheel_point_spec(pos, angle, -HALF_CAR_W + BACK_WHEEL_X_OFF, -HALF_CAR_H
            - COM_OFF + BACK_WHEEL_Y_OFF),
        right_back: wheel_point_spec(pos, angle, HALF_CAR_W - BACK_WHEEL_X_OFF, -HALF_CAR_H
            - COM_OFF + BACK_WHEEL_Y_OFF),
        time_created: now as i64,
    }
}

/// One wheel offset, rotated into world space and translated to the car.
pub open spec fn wheel_point_spec(pos: Vec2, angle: int, off_x: int, off_y: int) -> Vec2 {
    let o = Vec2 { x: off_x as i64, y: off_y as i64 };
    Vec2 {
        x: fx_add_spec(rotate_x_spec(o, -angle), pos.x as int) as i64,
        y: fx_add_spec(rotate_y_spec(o, -angle), pos.y as int) as i64,
    }
}

/// The four wheel-contact points of the car, in world space.
pub struct WheelSet {
    pub left_front: Vec2,
    pub right_front: Vec2,
    pub left_back: Vec2,
    pub right_back: Vec2,
}

/// The player's vehicle: kinematic state plus the transient-effect pools
/// it drives.
pub struct Car {
    pub pos: Vec2,
    pub vel: Vec2,
    pub vel_mag: i64,
    pub throttle: i64,
    pub angle: i64,
    pub angular_vel: i64,
    pub angular_acc: i64,
    pub perp: i64,
    pub drifting: bool,
    pub trail: TrailRecorder,
    pub dust_sys: CarDustSystems,
}

impl Car {
    /// The kinematic fields, as a mathematical view.
    pub open spec fn kin(self) -> KinView {
        KinView {
            pos_x: self.pos.x as int,
            pos_y: self.pos.y as int,
            vel_x: self.vel.x as int,
            vel_y: self.vel.y as int,
            vel_mag: self.vel_mag as int,
            throttle: self.throttle as int,
            angle: self.angle as int,
            angular_vel: self.angular_vel as int,
            angular_acc: self.angular_acc as int,
            perp: self.perp as int,
            drifting: self.drifting,
        }
    }

    /// All state within the ranges the update relies on.
    pub open spec fn wf(self) -> bool {
        &&& self.pos.in_range()
        &&& self.vel.in_range()
        &&& 0 <= self.vel_mag <= 2_000_000_000_000_000i64
        &&& -SCALE <= self.throttle <= SCALE
        &&& -FX_MAX <= self.angle <= FX_MAX
        &&& -FX_MAX <= self.angular_vel <= FX_MAX
        &&& -SCALE <= self.angular_acc <= SCALE
        &&& -SCALE <= self.perp <= SCALE
        &&& self.trail.wf()
        &&& -FX_MAX <= self.trail.timer <= FX_MAX
        &&& self.dust_sys.wf()
    }

    /// A car at rest at a spawn point, facing a half turn (pi radians).
    pub fn new(p: Vec2) -> (r: Car)
        requires
            p.in_range(),
        ensures
            r.pos == p,
            r.vel.x == 0 && r.vel.y == 0,
            r.vel_mag == 0,
            r.throttle == 0,
            r.angle == HALF_TURN,
            r.angular_vel == 0,
            r.angular_acc == 0,
            r.perp == 0,
            r.drifting == false,
            r.trail.nodes@ == Seq::<DriftTrailSet>::empty(),
            r.trail.timer == 0,
            r.dust_sys.left.particles@ == Seq::<crate::dust_system::Particle>::empty(),
            r.dust_sys.right.particles@ == Seq::<crate::dust_system::Particle>::empty(),
            r.wf(),
    {
        Car {
            pos: p,
            vel: Vec2::zero(),
            vel_mag: 0,
            throttle: 0,
            angle: HALF_TURN,
            angular_vel: 0,
            angular_acc: 0,
            perp: 0,
            drifting: false,
            trail: TrailRecorder::new(),
            dust_sys: Default::default(),
        }
    }

    /// Respawn the car itself; trails and dust keep aging out naturally.
    pub fn reset(&mut self)
        ensures
            final (self).pos == (Vec2 { x: RESET_POS_X, y: RESET_POS_Y }),
            final (self).vel.x == 0 && final (self).vel.y == 0,
            final (self).throttle == 0,
            final (self).angle == HALF_TURN,
            final (self).angular_vel == 0,
            final (self).angular_acc == 0,
            final (self).vel_mag == old(self).vel_mag,
            final (self).perp == old(self).perp,
            final (self).drifting == old(self).drifting,
            final (self).trail == old(self).trail,
            final (self).dust_sys == old(self).dust_sys,
    {
        self.pos = Vec2 { x: RESET_POS_X, y: RESET_POS_Y };
        self.vel = Vec2::zero();
        self.throttle = 0;
        self.angle = HALF_TURN;
        self.angular_vel = 0;
        self.angular_acc = 0;
    }

    /// Add `dt * power * CAR_ACC` to velocity, along the current heading.
    fn accelerate(&mut self, dt: i64, power: i64)
        requires
            old(self).wf(),
            -MAX_DT <= dt <= MAX_DT,
            -SCALE <= power <= SCALE,
        ensures
            final (self).vel.x as int == fx_add_spec(
                old(self).vel.x as int,
                fx_mul_spec(
                    fx_mul_spec(fx_mul_spec(dt as int, power as int), CAR_ACC as int),
                    sin_spec(old(self).angle as int),
                ),
            ),
            final (self).vel.y as int == fx_add_spec(
                old(self).vel.y as int,
                fx_mul_spec(
                    fx_mul_spec(fx_mul_spec(dt as int, power as int), CAR_ACC as int),
                    cos_spec(old(self).angle as int),
                ),
            ),
            final (self).vel.in_range(),
            *final (self) == (Car { vel: final (self).vel, ..*old(self) }),
    {
        let dv = fx_mul(fx_mul(dt, power), CAR_ACC);
        let d = get_components(dv, self.angle);
        self.vel = self.vel.add(d);
    }

    /// Add `dt * amount * CAR_TURN_SPD` to the angular velocity.
    fn turn(&mut self, dt: i64, amount: i64)
        requires
            old(self).wf(),
        ensures
            final (self).angular_vel as int == fx_add_spec(
                old(self).angular_vel as int,
                fx_mul_spec(fx_mul_spec(dt as int, amount as int), CAR_TURN_SPD as int),
            ),
            *final (self) == (Car { angular_vel: final (self).angular_vel, ..*old(self) }),
    {
        self.angular_vel = fx_add(self.angular_vel, fx_mul(fx_mul(dt, amount), CAR_TURN_SPD));
    }

    /// Damp the spin, scrub sideways velocity, then apply uniform drag.
    fn apply_resistance(&mut self, dt: i64)
        requires
            old(self).wf(),
            0 <= dt <= MAX_DT,
        ensures
            final (self).kin() == resistance_phase(old(self).kin(), dt as int),
            *final (self) == (Car {
                vel: final (self).vel,
                angular_vel: final (self).angular_vel,
                ..*old(self)
            }),
            final (self).vel.in_range(),
            -FX_MAX <= final (self).angular_vel <= FX_MAX,
    {
        let ap = if self.perp < 0 {
            -self.perp
        } else {
            self.perp
        };
        let damp_arg = fx_mul(fx_mul(dt, 2 * SCALE - ap), LN_DAMP_BASE);
        proof {
            let d = dt as int;
            let m = (2 * SCALE - ap) as int;
            assert(d * m >= 0) by (nonlinear_arith)
                requires
                    d >= 0,
                    m >= 0,
            ;
            vstd::arithmetic::div_mod::lemma_div_pos_is_pos(d * m, SCALE as int);
            let dm = fx_mul_spec(d, m);
            assert(dm * (LN_DAMP_BASE as int) >= 0) by (nonlinear_arith)
                requires
                    dm >= 0,
            ;
            vstd::arithmetic::div_mod::lemma_div_pos_is_pos(
                dm * (LN_DAMP_BASE as int),
                SCALE as int,
            );
        }
        let damp = exp_neg(damp_arg);
        self.angular_vel = fx_mul(self.angular_vel, damp);

        let d_hor_v = fx_mul(fx_mul(-self.perp, dt), LATERAL_GAIN);
        let lat = self.lateral_axis();
        self.vel = self.vel.add(lat.scale_by(d_hor_v));

        let f = exp_neg(dt);
        self.vel = self.vel.scale_by(f);
    }

    /// The unit sideways axis of the current heading, in fixed point.
    fn lateral_axis(&self) -> (lat: Vec2)
        requires
            self.wf(),
        ensures
            lat.x as int == lat_x(self.angle as int),
            lat.y as int == lat_y(self.angle as int),
            -SCALE <= lat.x <= SCALE,
            -SCALE <= lat.y <= SCALE,
            lat.in_range(),
    {
        Vec2 { x: sin_fx(self.angle + QUARTER_TURN), y: sin_fx(self.angle + HALF_TURN) }
    }

    /// The slip value of the current velocity against the current heading.
    fn get_perp_value(&self) -> (r: i64)
        requires
            self.wf(),
            self.vel_mag > 0,
        ensures
            r as int == perp_spec(self.kin()),
            -SCALE <= r <= SCALE,
    {
        let lat = self.lateral_axis();
        let dot = self.vel.dot_wide(lat);
        proof {
            let w: int = FX_MAX as int;
            let s: int = SCALE as int;
            assert((self.vel.x as int) * (lat.x as int) >= -(w * s) && (self.vel.y as int) * (
            lat.y as int) >= -(w * s)) by (nonlinear_arith)
                requires
                    -w <= self.vel.x as int <= w,
                    -w <= self.vel.y as int <= w,
                    -s <= lat.x as int <= s,
                    -s <= lat.y as int <= s,
            ;
        }
        let q = sdiv_i128(dot, self.vel_mag as i128);
        if q > SCALE as i128 {
            SCALE
        } else if q < -(SCALE as i128) {
            -SCALE
        } else {
            q as i64
        }
    }

    /// The four wheel-contact points in world space: fixed offsets in
    /// car-local space, rotated by the negated heading, translated by the
    /// position.
    fn get_wheel_positions(&self) -> (w: WheelSet)
        requires
            self.wf(),
        ensures
            wheel_node_spec(self.pos, self.angle as int, 0) == (DriftTrailSet {
                left_front: w.left_front,
                right_front: w.right_front,
                left_back: w.left_back,
                right_back: w.right_back,
                time_created: 0,
            }),
            w.left_front.in_range(),
            w.right_front.in_range(),
            w.left_back.in_range(),
            w.right_back.in_range(),
    {
        let lf = rotate_vec(
            Vec2 { x: -HALF_CAR_W + FRONT_WHEEL_X_OFF, y: HALF_CAR_H - COM_OFF
                - FRONT_WHEEL_Y_OFF },
            -self.angle,
        ).add(self.pos);
        let rf = rotate_vec(
            Vec2 { x: HALF_CAR_W - FRONT_WHEEL_X_OFF, y: HALF_CAR_H - COM_OFF
                - FRONT_WHEEL_Y_OFF },
            -self.angle,
        ).add(self.pos);
        let lb = rotate_vec(
            Vec2 { x: -HALF_CAR_W + BACK_WHEEL_X_OFF, y: -HALF_CAR_H - COM_OFF
                + BACK_WHEEL_Y_OFF },
            -self.angle,
        ).add(self.pos);
        let rb = rotate_vec(
            Vec2 { x: HALF_CAR_W - BACK_WHEEL_X_OFF, y: -HALF_CAR_H - COM_OFF
                + BACK_WHEEL_Y_OFF },
            -self.angle,
        ).add(self.pos);
        WheelSet { left_front: lf, right_front: rf, left_back: lb, right_back: rb }
    }

    /// Whether this frame's effects fire: the car is moving and the freshly
    /// derived slip and speed cross the drift thresholds.
    pub open spec fn step_drifts(k: KinView, inp: InputState, dt: int) -> bool {
        let km = mag_phase(accel_phase(k, inp, dt));
        km.vel_mag > 0 && derive_phase(km).drifting
    }

    /// The slip magnitude that modulates this frame's dust emission.
    pub open spec fn step_slip_mag(k: KinView, inp: InputState, dt: int) -> int {
        abs_spec(perp_spec(mag_phase(accel_phase(k, inp, dt))))
    }

    /// The emission rate configured while drifting this frame.
    pub open spec fn step_dust_rate(k: KinView, inp: InputState, dt: int) -> int {
        fx_mul_spec(DUST_PARTICLES_EMM_RATE as int, Self::step_slip_mag(k, inp, dt))
    }

    /// The throttle, resistance, steering and snap work of one frame: the
    /// whole kinematic step except the final integration. Returns whether
    /// the car was moving and whether it drifted this frame.
    #[verifier::rlimit(60)]
    fn step_motion(&mut self, dt: i64, input: &InputState) -> (flags: (bool, bool))
        requires
            old(self).wf(),
            0 <= dt <= MAX_DT,
        ensures
            final (self).kin() == pre_integrate_phase(old(self).kin(), *input, dt as int),
            final (self).trail == old(self).trail,
            final (self).dust_sys == old(self).dust_sys,
            final (self).pos == old(self).pos,
            final (self).angle == old(self).angle,
            flags.0 == (mag_phase(accel_phase(old(self).kin(), *input, dt as int)).vel_mag > 0),
            flags.1 == Self::step_drifts(old(self).kin(), *input, dt as int),
            flags.1 ==> abs_spec(final (self).perp as int) == Self::step_slip_mag(
                old(self).kin(),
                *input,
                dt as int,
            ),
            final (self).wf(),
    {
        let ghost k0 = old(self).kin();
        if input.forward || input.reverse {
            if input.forward {
                self.throttle = SCALE;
            }
            if input.reverse {
                self.throttle = -SCALE;
            }
            self.accelerate(dt, self.throttle);
        } else {
            self.throttle = 0;
        }
        proof {
            assert(self.kin() == accel_phase(k0, *input, dt as int));
        }

        self.vel_mag = self.vel.length();
        self.angular_acc = 0;
        let ghost km = mag_phase(accel_phase(k0, *input, dt as int));
        proof {
            assert(self.kin() == km);
            assert(self.wf());
        }

        let mut drifted = false;
        let moving = self.vel_mag > 0;
        if self.vel_mag > 0 {
            self.perp = self.get_perp_value();
            let ap = if self.perp < 0 {
                -self.perp
            } else {
                self.perp
            };
            self.drifting = ap > DRIFT_PERP_THRESHOLD && self.vel_mag > DRIFT_SPEED_THRESHOLD;
            drifted = self.drifting;
            proof {
                assert(self.kin() == derive_phase(km));
            }

            self.apply_resistance(dt);
            proof {
                assert(self.kin() == resistance_phase(derive_phase(km), dt as int));
            }

            let a0 = ((self.vel_mag as u64) / (SPEED_NORM_DIVISOR as u64)) as i64;
            let auth = if a0 > SCALE {
                SCALE
            } else {
                a0
            };
            proof {
                assert(auth as int == steer_auth_spec(km.vel_mag));
            }
            if input.left {
                self.angular_acc = auth;
                self.turn(dt, auth);
            }
            if input.right {
                self.angular_acc = -auth;
                self.turn(dt, -auth);
            }
            proof {
                assert(self.kin() == steer_phase(
                    resistance_phase(derive_phase(km), dt as int),
                    *input,
                    dt as int,
                ));
            }

            if self.vel_mag < SNAP_SPEED_EPS {
                self.vel = Vec2::zero();
            }
            proof {
                assert(self.kin() == snap_phase(
                    steer_phase(resistance_phase(derive_phase(km), dt as int), *input, dt as int),
                ));
            }
        }
        (moving, drifted)
    }

    /// Feed the trail recorder and the dust emitters after the motion work
    /// of a frame: record and emit while drifting, stop emission the frame
    /// a drift ends while still moving.
    #[verifier::rlimit(60)]
    fn drive_effects(&mut self, dt: i64, now: i64, moving: bool, drifted: bool)
        requires
            old(self).wf(),
            0 <= dt <= MAX_DT,
            0 <= now <= FX_MAX,
            drifted ==> moving,
            forall|i: int|
                0 <= i < old(self).trail.nodes@.len() ==> now - (#[trigger] old(self).trail.nodes@[i]).time_created
                    <= crate::drift_trail::TRAIL_DURATION,
            forall|i: int|
                0 <= i < old(self).dust_sys.left.particles@.len() ==> now - (
                #[trigger] old(self).dust_sys.left.particles@[i]).time_created <= old(self).dust_sys.left.particles@[i].lifespan,
            forall|i: int|
                0 <= i < old(self).dust_sys.right.particles@.len() ==> now - (
                #[trigger] old(self).dust_sys.right.particles@[i]).time_created <= old(self).dust_sys.right.particles@[i].lifespan,
        ensures
            final (self).wf(),
            final (self).kin() == old(self).kin(),
            ({
                if drifted && old(self).trail.timer >= TRAIL_PLACEMENT_INTERVAL {
                    final (self).trail.nodes@ == old(self).trail.nodes@.push(
                        wheel_node_spec(old(self).pos, old(self).angle as int, now as int),
                    ) && final (self).trail.timer == 0
                } else {
                    final (self).trail == old(self).trail
                }
            }),
            forall|i: int|
                0 <= i < final (self).trail.nodes@.len() ==> now - (#[trigger] final (self).trail.nodes@[i]).time_created
                    <= crate::drift_trail::TRAIL_DURATION,
            final (self).dust_sys.left.particles@.len() == old(self).dust_sys.left.particles@.len()
                + if drifted {
                ParticleSystem::spawn_count_spec(
                    fx_mul_spec(
                        DUST_PARTICLES_EMM_RATE as int,
                        abs_spec(old(self).perp as int),
                    ),
                    dt as int,
                )
            } else {
                0
            },
            final (self).dust_sys.right.particles@.len() == old(
                self,
            ).dust_sys.right.particles@.len() + if drifted {
                ParticleSystem::spawn_count_spec(
                    fx_mul_spec(
                        DUST_PARTICLES_EMM_RATE as int,
                        abs_spec(old(self).perp as int),
                    ),
                    dt as int,
                )
            } else {
                0
            },
            final (self).dust_sys.left.emit == if drifted {
                true
            } else if moving {
                false
            } else {
                old(self).dust_sys.left.emit
            },
            final (self).dust_sys.right.emit == if drifted {
                true
            } else if moving {
                false
            } else {
                old(self).dust_sys.right.emit
            },
            forall|i: int|
                0 <= i < final (self).dust_sys.left.particles@.len() ==> now - (
                #[trigger] final (self).dust_sys.left.particles@[i]).time_created <= final (self).dust_sys.left.particles@[i].lifespan,
            forall|i: int|
                0 <= i < final (self).dust_sys.right.particles@.len() ==> now - (
                #[trigger] final (self).dust_sys.right.particles@[i]).time_created <= final (self).dust_sys.right.particles@[i].lifespan,
    {
        if drifted {
            let ap = if self.perp < 0 {
                -self.perp
            } else {
                self.perp
            };
            let ghost left0 = self.dust_sys.left.particles@;
            let ghost right0 = self.dust_sys.right.particles@;
            let wheels = self.get_wheel_positions();
            self.dust_sys.emit(dt, now, self.angle, ap, wheels.left_back, wheels.right_back);
            proof {
                assert forall|i: int| 0 <= i < self.dust_sys.left.particles@.len() implies now - (
                #[trigger] self.dust_sys.left.particles@[i]).time_created
                    <= self.dust_sys.left.particles@[i].lifespan by {
                    if i < left0.len() {
                        assert(self.dust_sys.left.particles@.subrange(0, left0.len() as int)[i]
                            == self.dust_sys.left.particles@[i]);
                    } else {
                        assert(spawned_ok(self.dust_sys.left.particles@[i], now as int));
                    }
                }
                assert forall|i: int| 0 <= i < self.dust_sys.right.particles@.len() implies now - (
                #[trigger] self.dust_sys.right.particles@[i]).time_created
                    <= self.dust_sys.right.particles@[i].lifespan by {
                    if i < right0.len() {
                        assert(self.dust_sys.right.particles@.subrange(0, right0.len() as int)[i]
                            == self.dust_sys.right.particles@[i]);
                    } else {
                        assert(spawned_ok(self.dust_sys.right.particles@[i], now as int));
                    }
                }
            }
            self.trail.record(
                now,
                wheels.left_front,
                wheels.right_front,
                wheels.left_back,
                wheels.right_back,
            );
        } else if moving && (self.dust_sys.left.emit || self.dust_sys.right.emit) {
            self.dust_sys.left.emit = false;
            self.dust_sys.right.emit = false;
        }
    }

    /// Advance all owned state by one frame.
    ///
    /// The kinematic effect is exactly `kin_step`. The trail pool is culled
    /// and, while drifting, extended at the placement interval. Both dust
    /// pools are culled and advanced, and fed from the rear wheels while
    /// drifting; when the drift ends their emission stops but live
    /// particles keep aging out.
    #[verifier::rlimit(100)]
    pub fn update(&mut self, dt: i64, now: i64, input: &InputState)
        requires
            old(self).wf(),
            0 <= dt <= MAX_DT,
            0 <= now <= FX_MAX,
        ensures
            final (self).wf(),
            final (self).kin() == kin_step(old(self).kin(), *input, dt as int),
            // trail: cull, then record while drifting, gated by the timer
            ({
                let timer0 = fx_add_spec(old(self).trail.timer as int, dt as int);
                let culled = old(self).trail.nodes@.filter(trail_fresh(now as int));
                let drifting = Self::step_drifts(old(self).kin(), *input, dt as int);
                if drifting && timer0 >= TRAIL_PLACEMENT_INTERVAL as int {
                    final (self).trail.nodes@ == culled.push(
                        wheel_node_spec(old(self).pos, old(self).angle as int, now as int),
                    ) && final (self).trail.timer == 0
                } else {
                    final (self).trail.nodes@ == culled && final (self).trail.timer as int
                        == timer0
                }
            }),
            forall|i: int|
                0 <= i < final (self).trail.nodes@.len() ==> now - (#[trigger] final (self).trail.nodes@[i]).time_created
                    <= crate::drift_trail::TRAIL_DURATION,
            // dust: cull and advance both pools, then feed them while drifting
            ({
                let drifting = Self::step_drifts(old(self).kin(), *input, dt as int);
                let rate = Self::step_dust_rate(old(self).kin(), *input, dt as int);
                let after_left = old(self).dust_sys.left.particles@.filter(
                    particle_fresh(now as int),
                ).len() + if old(self).dust_sys.left.emit {
                    ParticleSystem::spawn_count_spec(old(self).dust_sys.left.em_rate as int,
                        dt as int)
                } else {
                    0
                };
                let after_right = old(self).dust_sys.right.particles@.filter(
                    particle_fresh(now as int),
                ).len() + if old(self).dust_sys.right.emit {
                    ParticleSystem::spawn_count_spec(old(self).dust_sys.right.em_rate as int,
                        dt as int)
                } else {
                    0
                };
                &&& final (self).dust_sys.left.particles@.len() == after_left + if drifting {
                    ParticleSystem::spawn_count_spec(rate, dt as int)
                } else {
                    0
                }
                &&& final (self).dust_sys.right.particles@.len() == after_right + if drifting {
                    ParticleSystem::spawn_count_spec(rate, dt as int)
                } else {
                    0
                }
                &&& final (self).dust_sys.left.emit == if drifting {
                    true
                } else if mag_phase(
                    accel_phase(old(self).kin(), *input, dt as int),
                ).vel_mag > 0 {
                    false
                } else {
                    old(self).dust_sys.left.emit
                }
                &&& final (self).dust_sys.right.emit == if drifting {
                    true
                } else if mag_phase(
                    accel_phase(old(self).kin(), *input, dt as int),
                ).vel_mag > 0 {
                    false
                } else {
                    old(self).dust_sys.right.emit
                }
            }),
            forall|i: int|
                0 <= i < final (self).dust_sys.left.particles@.len() ==> now - (
                #[trigger] final (self).dust_sys.left.particles@[i]).time_created <= final (self).dust_sys.left.particles@[i].lifespan,
            forall|i: int|
                0 <= i < final (self).dust_sys.right.particles@.len() ==> now - (
                #[trigger] final (self).dust_sys.right.particles@[i]).time_created <= final (self).dust_sys.right.particles@[i].lifespan,
    {
        let ghost k0 = old(self).kin();
        self.trail.advance_timer(dt);
        self.trail.cull(now);
        self.dust_sys.update(dt, now);

        let flags = self.step_motion(dt, input);
        let moving = flags.0;
        let drifted = flags.1;

        self.drive_effects(dt, now, moving, drifted);

        self.angle = fx_add(self.angle, fx_mul(self.angular_vel, dt));
        self.pos = self.pos.add(self.vel.scale_by(dt));
        proof {
            assert(self.kin() == kin_step(k0, *input, dt as int));
        }
    }

    /// Live dust particles across both emitters.
    pub fn get_particle_count(&self) -> (c: usize)
        requires
            self.dust_sys.left.particles@.len() + self.dust_sys.right.particles@.len()
                <= usize::MAX,
        ensures
            c == self.dust_sys.left.particles@.len() + self.dust_sys.right.particles@.len(),
    {
        self.dust_sys.get_particle_count()
    }

    /// Live trail nodes.
    pub fn get_trail_node_count(&self) -> (c: usize)
        ensures
            c == self.trail.nodes@.len(),
    {
        self.trail.node_count()
    }
}

impl Default for Car {
    /// A car at rest at the origin, facing a half turn.
    fn default() -> (r: Car)
        ensures
            r.pos.x == 0 && r.pos.y == 0,
            r.vel.x == 0 && r.vel.y == 0,
            r.vel_mag == 0,
            r.throttle == 0,
            r.angle == HALF_TURN,
            r.angular_vel == 0,
            r.angular_acc == 0,
            r.perp == 0,
            r.drifting == false,
            r.wf(),
    {
        Car::new(Vec2 { x: 0, y: 0 })
    }
}

} // verus!
