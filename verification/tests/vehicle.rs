//! Whole-vehicle scenarios: the concrete acceleration frame, zero-input
//! decay, steering symmetry, the stationary state, drifting effects, and
//! reset.

use drift::car::{Car, InputState, RESET_POS_X, RESET_POS_Y};
use drift::trig::HALF_TURN;
use drift::fx::SCALE;
use drift::pillar::Pillar;
use drift::vec2::Vec2;

fn coast() -> InputState {
    InputState { forward: false, reverse: false, left: false, right: false }
}

fn forward() -> InputState {
    InputState { forward: true, reverse: false, left: false, right: false }
}

fn steer_left() -> InputState {
    InputState { forward: true, reverse: false, left: true, right: false }
}

fn steer_right() -> InputState {
    InputState { forward: true, reverse: false, left: false, right: true }
}

#[test]
fn concrete_accelerating_frame() {
    // At rest, heading pi, forward held, dt = 0.1 s. The acceleration step
    // yields velocity (0, -50); slip is exactly zero; drag scales by
    // e^-0.1, giving about (0, -45.24); position advances by velocity
    // times dt, about (0, -4.524); the car never counts as drifting.
    let mut car = Car::new(Vec2 { x: 0, y: 0 });
    assert_eq!(car.angle, HALF_TURN);
    car.update(100_000, 0, &forward());
    assert_eq!(car.throttle, SCALE);
    assert_eq!(car.vel_mag, 50_000_000); // speed right after the acceleration step
    assert_eq!(car.perp, 0);
    assert!(!car.drifting);
    assert_eq!(car.vel, Vec2 { x: 0, y: -45_241_900 });
    assert_eq!(car.pos, Vec2 { x: 0, y: -4_524_190 });
    assert_eq!(car.angle, HALF_TURN);
}

#[test]
fn zero_input_decay_reaches_exact_rest() {
    let mut car = Car::new(Vec2 { x: 0, y: 0 });
    car.vel = Vec2 { x: 0, y: -30_000_000 };
    let mut last = 30_000_000i64;
    let mut steps: u32 = 0;
    while car.vel.y != 0 {
        car.update(100_000, 0, &coast());
        let mag = -car.vel.y;
        assert!(mag >= 0); // never overshoots through zero
        assert!(mag < last); // strictly decreasing
        last = mag;
        steps += 1;
        assert!(steps < 1_000);
    }
    assert_eq!(car.vel, Vec2 { x: 0, y: 0 });
    // once at rest it stays at rest
    car.update(100_000, 0, &coast());
    assert_eq!(car.vel, Vec2 { x: 0, y: 0 });
}

#[test]
fn steering_left_mirrors_steering_right() {
    let mut left_car = Car::new(Vec2 { x: 0, y: 0 });
    let mut right_car = Car::new(Vec2 { x: 0, y: 0 });
    right_car.angle = -left_car.angle;
    for _ in 0..40 {
        left_car.update(50_000, 0, &steer_left());
        right_car.update(50_000, 0, &steer_right());
        assert_eq!(right_car.angular_vel, -left_car.angular_vel);
        assert_eq!(right_car.angle, -left_car.angle);
        assert_eq!(right_car.perp, -left_car.perp);
        assert_eq!(right_car.vel_mag, left_car.vel_mag);
        assert_eq!(right_car.drifting, left_car.drifting);
        assert_eq!(right_car.vel.x, -left_car.vel.x);
        assert_eq!(right_car.vel.y, left_car.vel.y);
    }
}

#[test]
fn stationary_update_computes_no_slip() {
    let mut car = Car::new(Vec2 { x: 7_000_000, y: 9_000_000 });
    car.perp = 123_456; // a stale slip value from an earlier run
    car.update(100_000, 0, &coast());
    assert_eq!(car.perp, 123_456); // untouched: the slip path never ran
    assert_eq!(car.vel, Vec2 { x: 0, y: 0 });
    assert_eq!(car.vel_mag, 0);
    assert_eq!(car.pos, Vec2 { x: 7_000_000, y: 9_000_000 });
    assert_eq!(car.throttle, 0);
}

#[test]
fn sideways_slide_drifts_and_feeds_trails_and_dust() {
    let mut car = Car::new(Vec2 { x: 0, y: 0 });
    // sliding fully sideways at 50 px/s against a heading of pi
    car.vel = Vec2 { x: 50_000_000, y: 0 };
    car.update(100_000, 0, &coast());
    assert!(car.drifting);
    assert_eq!(car.perp, -SCALE); // pure sideways slide
    assert_eq!(car.get_trail_node_count(), 1);
    // 300 particles/s at full slip, a tenth of a second, two rear wheels
    assert_eq!(car.get_particle_count(), 60);
    assert!(car.dust_sys.left.emit && car.dust_sys.right.emit);
}

#[test]
fn emission_stops_when_the_drift_ends() {
    let mut car = Car::new(Vec2 { x: 0, y: 0 });
    car.vel = Vec2 { x: 50_000_000, y: 0 };
    car.update(100_000, 0, &coast());
    assert!(car.dust_sys.left.emit);
    // moving straight along the heading: no slip, so the drift is over
    car.vel = Vec2 { x: 0, y: -50_000_000 };
    car.update(100_000, 200_000, &coast());
    assert!(!car.drifting);
    assert!(!car.dust_sys.left.emit && !car.dust_sys.right.emit);
    // much later every particle and node has aged out, with nothing new
    car.vel = Vec2 { x: 0, y: 0 };
    car.update(100_000, 30_000_000, &coast());
    assert_eq!(car.get_particle_count(), 0);
    assert_eq!(car.get_trail_node_count(), 0);
}

#[test]
fn reset_respawns_the_car_but_not_the_effects() {
    let mut car = Car::new(Vec2 { x: 0, y: 0 });
    car.vel = Vec2 { x: 50_000_000, y: 0 };
    car.update(100_000, 0, &coast());
    let nodes: usize = car.get_trail_node_count();
    let particles: usize = car.get_particle_count();
    assert!(nodes > 0 && particles > 0);
    car.reset();
    assert_eq!(car.pos, Vec2 { x: RESET_POS_X, y: RESET_POS_Y });
    assert_eq!(car.vel, Vec2 { x: 0, y: 0 });
    assert_eq!(car.angle, HALF_TURN);
    assert_eq!(car.angular_vel, 0);
    assert_eq!(car.throttle, 0);
    // trails and particles keep aging out naturally instead of vanishing
    assert_eq!(car.get_trail_node_count(), nodes);
    assert_eq!(car.get_particle_count(), particles);
}

#[test]
fn both_steering_keys_cancel_exactly() {
    let mut both = Car::new(Vec2 { x: 0, y: 0 });
    let mut neither = Car::new(Vec2 { x: 0, y: 0 });
    let input_both = InputState { forward: true, reverse: false, left: true, right: true };
    for _ in 0..20 {
        both.update(50_000, 0, &input_both);
        neither.update(50_000, 0, &forward());
        assert_eq!(both.angular_vel, neither.angular_vel);
        assert_eq!(both.vel, neither.vel);
    }
}

#[test]
fn reverse_key_wins_over_forward() {
    let mut car = Car::new(Vec2 { x: 0, y: 0 });
    let input = InputState { forward: true, reverse: true, left: false, right: false };
    car.update(100_000, 0, &input);
    assert_eq!(car.throttle, -SCALE);
    assert_eq!(car.vel.y, 45_241_900); // accelerating backward from heading pi
}

#[test]
fn pillar_distance_is_euclidean() {
    let p = Pillar::new(Vec2 { x: 300_000_000, y: 400_000_000 }, 7_000_000);
    let d = p.distance_to(Vec2 { x: 303_000_000, y: 404_000_000 });
    assert_eq!(d, 5_000_000);
    let q = Pillar::default();
    assert_eq!(q.radius, 7_000_000);
    assert!(!q.done);
}
