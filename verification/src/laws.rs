//! Global properties of the vehicle dynamics, proved against `kin_step`:
//! the stationary state computes no slip, coasting decays to an exact
//! stop, and steering is mirror-symmetric.

use vstd::prelude::*;

verus! {

use crate::fx::SCALE;
use crate::fx::FX_MAX;
use crate::fx::MAX_DT;
use crate::fx::abs_spec;
use crate::fx::sdiv;
use crate::fx::fx_mul_spec;
use crate::fx::lemma_fx_mul_neg;
use crate::fx::lemma_fx_mul_shrinks;
use crate::fx::lemma_sdiv_neg;
use crate::fx::lemma_sqrt_of_square;
use crate::trig::QUARTER_TURN;
use crate::trig::HALF_TURN;
use crate::trig::sin_spec;
use crate::trig::cos_spec;
use crate::trig::lemma_sin_neg;
use crate::trig::lemma_sin_half_shift;
use crate::trig::lemma_sin_quarter_mirror;
use crate::trig::lemma_cos_neg;
use crate::trig::lemma_cardinal_values;
use crate::decay::lemma_exp_neg_bounds;
use crate::car::KinView;
use crate::car::InputState;
use crate::car::kin_step;
use crate::car::pre_integrate_phase;
use crate::car::accel_phase;
use crate::car::mag_phase;
use crate::car::derive_phase;
use crate::car::resistance_phase;
use crate::car::steer_phase;
use crate::car::steer_auth_spec;
use crate::car::snap_phase;
use crate::car::integrate_phase;
use crate::car::perp_spec;
use crate::car::throttle_spec;
use crate::car::lat_x;
use crate::car::lat_y;
use crate::car::SNAP_SPEED_EPS;

/// The input with no key held.
pub open spec fn no_input() -> InputState {
    InputState { forward: false, reverse: false, left: false, right: false }
}

/// The same frame step applied `n` times with a constant input.
pub open spec fn drive_run(k: KinView, inp: InputState, dt: int, n: nat) -> KinView
    decreases n,
{
    if n == 0 {
        k
    } else {
        drive_run(kin_step(k, inp, dt), inp, dt, (n - 1) as nat)
    }
}

/// At a standstill with no input, one frame changes nothing but the
/// throttle and heading bookkeeping: the velocity stays exactly zero, the
/// position does not move, and the slip value is not recomputed at all (no
/// division by the zero speed ever happens).
pub proof fn lemma_rest_stays_at_rest(k: KinView, dt: int)
    requires
        k.vel_x == 0,
        k.vel_y == 0,
        -(FX_MAX as int) <= k.pos_x <= FX_MAX as int,
        -(FX_MAX as int) <= k.pos_y <= FX_MAX as int,
        0 <= dt,
    ensures
        ({
            let k2 = kin_step(k, no_input(), dt);
            &&& k2.vel_x == 0
            &&& k2.vel_y == 0
            &&& k2.vel_mag == 0
            &&& k2.perp == k.perp
            &&& k2.drifting == k.drifting
            &&& k2.pos_x == k.pos_x
            &&& k2.pos_y == k.pos_y
            &&& k2.throttle == 0
        }),
{
    let ka = accel_phase(k, no_input(), dt);
    let km = mag_phase(ka);
    assert(km.vel_mag == 0);
    let kd = pre_integrate_phase(k, no_input(), dt);
    assert(kd == km);
}

/// One coasting frame on a y-aligned heading with no spin: the sideways
/// velocity component stays exactly zero, the heading and spin are
/// untouched, and the speed strictly shrinks toward an exact stop, without
/// ever flipping sign.
pub proof fn lemma_coast_step(k: KinView, dt: int)
    requires
        k.vel_x == 0,
        lat_y(k.angle) == 0,  // the heading lies along the y axis
        -(FX_MAX as int) <= k.angle <= FX_MAX as int,
        k.angular_vel == 0,
        -(FX_MAX as int) <= k.vel_y <= FX_MAX as int,
        0 < dt <= MAX_DT as int,
    ensures
        ({
            let k2 = kin_step(k, no_input(), dt);
            &&& k2.vel_x == 0
            &&& k2.angle == k.angle
            &&& k2.angular_vel == 0
            &&& -(FX_MAX as int) <= k2.vel_y <= FX_MAX as int
            &&& abs_spec(k2.vel_y) <= abs_spec(k.vel_y)
            &&& (k.vel_y != 0 ==> abs_spec(k2.vel_y) < abs_spec(k.vel_y))
            &&& (k.vel_y == 0 ==> k2.vel_y == 0)
            &&& (k.vel_y > 0 ==> k2.vel_y >= 0)
            &&& (k.vel_y < 0 ==> k2.vel_y <= 0)
            &&& (abs_spec(k.vel_y) < SNAP_SPEED_EPS as int ==> k2.vel_y == 0)
        }),
{
    let ka = accel_phase(k, no_input(), dt);
    assert(ka.vel_x == 0 && ka.vel_y == k.vel_y);
    let km = mag_phase(ka);
    lemma_sqrt_of_square(k.vel_y);
    assert(0 * 0 + k.vel_y * k.vel_y == k.vel_y * k.vel_y);
    assert(km.vel_mag == abs_spec(k.vel_y));
    if k.vel_y == 0 {
        assert(km.vel_mag == 0);
        assert(pre_integrate_phase(k, no_input(), dt) == km);
    } else {
        assert(km.vel_mag > 0);
        // slip is exactly zero: the lateral axis has no y component and
        // the velocity no x component, so the dot product vanishes
        let dot = km.vel_x * lat_x(km.angle) + km.vel_y * lat_y(km.angle);
        assert(km.vel_x == 0);
        assert(dot == 0) by (nonlinear_arith)
            requires
                dot == km.vel_x * lat_x(km.angle) + km.vel_y * lat_y(km.angle),
                km.vel_x == 0,
                lat_y(km.angle) == 0,
        ;
        assert(sdiv(0, km.vel_mag) == 0);
        let kde = derive_phase(km);
        assert(kde.perp == 0);
        assert(!kde.drifting);
        // resistance: no scrub (slip is zero), pure drag on the y component
        let kr = resistance_phase(kde, dt);
        assert(fx_mul_spec(0, dt) == 0);
        let d = fx_mul_spec(fx_mul_spec(0 - kde.perp, dt), crate::car::LATERAL_GAIN as int);
        assert(d == 0);
        assert(fx_mul_spec(d, lat_x(km.angle)) == 0 && fx_mul_spec(d, lat_y(km.angle)) == 0);
        assert(kr.angular_vel == fx_mul_spec(0, exp_damp(kde, dt)));
        assert(kr.angular_vel == 0);
        let f = crate::decay::exp_neg_spec(dt);
        lemma_exp_neg_bounds(dt);
        assert(0 <= f < SCALE as int);
        lemma_fx_mul_shrinks(0, f);
        assert(kr.vel_x == fx_mul_spec(0, f));
        assert(kr.vel_x == 0);
        lemma_fx_mul_shrinks(k.vel_y, f);
        assert(kr.vel_y == fx_mul_spec(k.vel_y, f));
        assert(abs_spec(kr.vel_y) < abs_spec(k.vel_y));
        // no steering input, so the steer phase is the identity
        let ks = steer_phase(kr, no_input(), dt);
        assert(ks == kr);
        let kn = snap_phase(ks);
        assert(pre_integrate_phase(k, no_input(), dt) == kn);
        // integration keeps the heading: the spin is exactly zero
        assert(fx_mul_spec(kn.angular_vel, dt) == 0);
    }
}

/// The two headings the car actually spawns with are y-aligned: both the
/// default half-turn heading and its opposite satisfy the coasting lemmas'
/// premise.
pub proof fn lemma_axis_headings_y_aligned()
    ensures
        lat_y(HALF_TURN as int) == 0,
        lat_y(0) == 0,
{
    lemma_cardinal_values();
    let q = QUARTER_TURN as int;
    assert(lat_y(HALF_TURN as int) == cos_spec(3 * q));
    assert(lat_y(0) == cos_spec(q));
}

/// A helper name for the angular damping factor of a state.
spec fn exp_damp(k: KinView, dt: int) -> int {
    crate::decay::exp_neg_spec(
        fx_mul_spec(
            fx_mul_spec(dt, 2 * (SCALE as int) - abs_spec(k.perp)),
            crate::car::LN_DAMP_BASE as int,
        ),
    )
}

/// Zero-input decay: coasting along a y-aligned heading with no spin, the
/// speed strictly decreases every frame until it is exactly zero, and it
/// is exactly zero after at most as many frames as the speed has
/// fixed-point units.
pub proof fn lemma_zero_input_decay(k: KinView, dt: int, n: nat)
    requires
        k.vel_x == 0,
        lat_y(k.angle) == 0,
        -(FX_MAX as int) <= k.angle <= FX_MAX as int,
        k.angular_vel == 0,
        -(FX_MAX as int) <= k.vel_y <= FX_MAX as int,
        0 < dt <= MAX_DT as int,
        n >= abs_spec(k.vel_y),
    ensures
        drive_run(k, no_input(), dt, n).vel_x == 0,
        drive_run(k, no_input(), dt, n).vel_y == 0,
    decreases n,
{
    if n == 0 {
        assert(k.vel_y == 0);
    } else {
        lemma_coast_step(k, dt);
        let k2 = kin_step(k, no_input(), dt);
        if k.vel_y == 0 {
            lemma_zero_input_decay(k2, dt, (n - 1) as nat);
        } else {
            assert(abs_spec(k2.vel_y) <= abs_spec(k.vel_y) - 1);
            lemma_zero_input_decay(k2, dt, (n - 1) as nat);
        }
    }
}

/// The mirror image of a kinematic state: everything about the x axis and
/// every angular quantity negated.
pub open spec fn mirror_kin(k: KinView) -> KinView {
    KinView {
        pos_x: -k.pos_x,
        pos_y: k.pos_y,
        vel_x: -k.vel_x,
        vel_y: k.vel_y,
        vel_mag: k.vel_mag,
        throttle: k.throttle,
        angle: -k.angle,
        angular_vel: -k.angular_vel,
        angular_acc: -k.angular_acc,
        perp: -k.perp,
        drifting: k.drifting,
    }
}

/// The mirror image of an input: the steering keys swapped.
pub open spec fn mirror_input(inp: InputState) -> InputState {
    InputState { forward: inp.forward, reverse: inp.reverse, left: inp.right, right: inp.left }
}

/// The lateral axis under a mirrored heading: same x component, negated y
/// component.
proof fn lemma_lat_mirror(a: int)
    ensures
        lat_x(-a) == lat_x(a),
        lat_y(-a) == -lat_y(a),
        sin_spec(-a) == -sin_spec(a),
        cos_spec(-a) == cos_spec(a),
{
    let q = QUARTER_TURN as int;
    let h = HALF_TURN as int;
    lemma_sin_neg(a);
    lemma_cos_neg(a);
    lemma_sin_quarter_mirror(a);
    assert(-a + q == q - a && a + q == q + a);
    // lat_y(a) == sin(a + half) == -sin(a)
    lemma_sin_half_shift(a);
    assert(a + q + q == a + h);
    // lat_y(-a) == sin(h - a) == -sin(a - h) == sin(a)
    lemma_sin_neg(a - h);
    assert(-(a - h) == h - a);
    lemma_sin_half_shift(a - h);
    assert((a - h) + h == a);
    assert(-a + q + q == h - a);
}

proof fn lemma_mirror_accel(k: KinView, inp: InputState, dt: int)
    ensures
        accel_phase(mirror_kin(k), mirror_input(inp), dt) == mirror_kin(accel_phase(k, inp, dt)),
{
    if inp.forward || inp.reverse {
        let thr = throttle_spec(inp);
        let dv = fx_mul_spec(fx_mul_spec(dt, thr), crate::car::CAR_ACC as int);
        lemma_lat_mirror(k.angle);
        lemma_fx_mul_neg(dv, sin_spec(k.angle));
    }
}

proof fn lemma_mirror_mag(k: KinView)
    ensures
        mag_phase(mirror_kin(k)) == mirror_kin(mag_phase(k)),
{
    assert((-k.vel_x) * (-k.vel_x) == k.vel_x * k.vel_x) by (nonlinear_arith);
}

proof fn lemma_mirror_derive(k: KinView)
    requires
        k.vel_mag > 0,
    ensures
        derive_phase(mirror_kin(k)) == mirror_kin(derive_phase(k)),
        perp_spec(mirror_kin(k)) == -perp_spec(k),
{
    lemma_lat_mirror(k.angle);
    let dot = k.vel_x * lat_x(k.angle) + k.vel_y * lat_y(k.angle);
    let dotm = (-k.vel_x) * lat_x(-k.angle) + k.vel_y * lat_y(-k.angle);
    assert(dotm == -dot) by (nonlinear_arith)
        requires
            dot == k.vel_x * lat_x(k.angle) + k.vel_y * lat_y(k.angle),
            dotm == (-k.vel_x) * lat_x(-k.angle) + k.vel_y * lat_y(-k.angle),
            lat_x(-k.angle) == lat_x(k.angle),
            lat_y(-k.angle) == -lat_y(k.angle),
    ;
    lemma_sdiv_neg(dot, k.vel_mag);
}

proof fn lemma_mirror_resistance(k: KinView, dt: int)
    ensures
        resistance_phase(mirror_kin(k), dt) == mirror_kin(resistance_phase(k, dt)),
{
    lemma_lat_mirror(k.angle);
    let ap = abs_spec(k.perp);
    assert(abs_spec(-k.perp) == ap);
    let damp = exp_damp(k, dt);
    lemma_fx_mul_neg(k.angular_vel, damp);
    let d = fx_mul_spec(fx_mul_spec(0 - k.perp, dt), crate::car::LATERAL_GAIN as int);
    let dm = fx_mul_spec(fx_mul_spec(0 - (-k.perp), dt), crate::car::LATERAL_GAIN as int);
    lemma_fx_mul_neg(0 - k.perp, dt);
    lemma_fx_mul_neg(fx_mul_spec(0 - k.perp, dt), crate::car::LATERAL_GAIN as int);
    assert(0 - (-k.perp) == -(0 - k.perp));
    assert(dm == -d);
    lemma_fx_mul_neg(d, lat_x(k.angle));
    lemma_fx_mul_neg(d, lat_y(k.angle));
    lemma_fx_mul_neg(-d, lat_y(k.angle));
    let vx1 = crate::fx::fx_add_spec(k.vel_x, fx_mul_spec(d, lat_x(k.angle)));
    let f = crate::decay::exp_neg_spec(dt);
    lemma_fx_mul_neg(vx1, f);
}

proof fn lemma_mirror_steer(k: KinView, inp: InputState, dt: int)
    requires
        !(inp.left && inp.right),
    ensures
        steer_phase(mirror_kin(k), mirror_input(inp), dt) == mirror_kin(steer_phase(k, inp, dt)),
{
    let auth = steer_auth_spec(k.vel_mag);
    let turn = fx_mul_spec(fx_mul_spec(dt, auth), crate::car::CAR_TURN_SPD as int);
    lemma_fx_mul_neg(dt, auth);
    lemma_fx_mul_neg(fx_mul_spec(dt, auth), crate::car::CAR_TURN_SPD as int);
    assert(fx_mul_spec(dt, 0 - auth) == -fx_mul_spec(dt, auth));
    assert(fx_mul_spec(fx_mul_spec(dt, 0 - auth), crate::car::CAR_TURN_SPD as int) == -turn);
}

proof fn lemma_mirror_integrate(k: KinView, dt: int)
    ensures
        integrate_phase(mirror_kin(k), dt) == mirror_kin(integrate_phase(k, dt)),
{
    lemma_fx_mul_neg(k.angular_vel, dt);
    lemma_fx_mul_neg(k.vel_x, dt);
}

/// Steering symmetry, one frame: stepping the mirror image of a state
/// with the mirrored input gives the mirror image of stepping the state
/// itself. Holds whenever the two steering keys are not both held.
pub proof fn lemma_steer_mirror_step(k: KinView, inp: InputState, dt: int)
    requires
        !(inp.left && inp.right),
    ensures
        kin_step(mirror_kin(k), mirror_input(inp), dt) == mirror_kin(kin_step(k, inp, dt)),
{
    lemma_mirror_accel(k, inp, dt);
    let ka = accel_phase(k, inp, dt);
    lemma_mirror_mag(ka);
    let km = mag_phase(ka);
    if km.vel_mag > 0 {
        lemma_mirror_derive(km);
        let kd = derive_phase(km);
        lemma_mirror_resistance(kd, dt);
        let kr = resistance_phase(kd, dt);
        lemma_mirror_steer(kr, inp, dt);
        let ks = steer_phase(kr, inp, dt);
        assert(snap_phase(mirror_kin(ks)) == mirror_kin(snap_phase(ks)));
        lemma_mirror_integrate(snap_phase(ks), dt);
    } else {
        lemma_mirror_integrate(km, dt);
    }
}

/// Steering symmetry over a whole run: for any starting state and any
/// number of frames, holding one steering key produces, from the mirrored
/// start, the exact mirror of holding the other — in particular an
/// angular-velocity trajectory that is the exact negation, with mirrored
/// heading and slip sign.
pub proof fn lemma_steer_mirror_run(k: KinView, inp: InputState, dt: int, n: nat)
    requires
        !(inp.left && inp.right),
    ensures
        drive_run(mirror_kin(k), mirror_input(inp), dt, n) == mirror_kin(
            drive_run(k, inp, dt, n),
        ),
    decreases n,
{
    if n == 0 {
    } else {
        lemma_steer_mirror_step(k, inp, dt);
        lemma_steer_mirror_run(kin_step(k, inp, dt), inp, dt, (n - 1) as nat);
    }
}

/// The observable half of the symmetry: from the mirrored start, steering
/// the other way for any number of frames gives the exactly negated
/// angular velocity, heading and slip, at the same speed.
pub proof fn lemma_steer_trajectory_negates(k: KinView, inp: InputState, dt: int, n: nat)
    requires
        !(inp.left && inp.right),
    ensures
        drive_run(mirror_kin(k), mirror_input(inp), dt, n).angular_vel == -drive_run(
            k,
            inp,
            dt,
            n,
        ).angular_vel,
        drive_run(mirror_kin(k), mirror_input(inp), dt, n).angle == -drive_run(
            k,
            inp,
            dt,
            n,
        ).angle,
        drive_run(mirror_kin(k), mirror_input(inp), dt, n).perp == -drive_run(k, inp, dt, n).perp,
        drive_run(mirror_kin(k), mirror_input(inp), dt, n).vel_mag == drive_run(
            k,
            inp,
            dt,
            n,
        ).vel_mag,
{
    lemma_steer_mirror_run(k, inp, dt, n);
}

} // verus!
