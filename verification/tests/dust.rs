//! Particle pools: emission counts, aging, and the fade of single
//! particles.

use drift::dust_system::{
    CarDustSystems, Particle, ParticleSystem, DUST_PARTICLES_EMM_RATE, DUST_PARTICLE_MAX_RAD,
    DUST_PARTICLE_MIN_RAD,
};
use drift::fx::SCALE;
use drift::vec2::Vec2;

fn origin() -> Vec2 {
    Vec2 { x: 0, y: 0 }
}

#[test]
fn update_spawns_floor_of_rate_times_dt() {
    let mut ps = ParticleSystem::new(origin(), 0);
    ps.emit = true;
    // 300 particles per second for a tenth of a second
    ps.update(100_000, 0);
    assert_eq!(ps.get_particle_count(), 30);
    // emission off: nothing spawns, nothing has expired at the same instant
    ps.emit = false;
    ps.update(100_000, 0);
    assert_eq!(ps.get_particle_count(), 30);
}

#[test]
fn emission_total_over_frames_is_sum_of_floors() {
    let mut ps = ParticleSystem::new(origin(), 0);
    ps.emit = true;
    // three frames at the same instant, so nothing ages out in between
    ps.update(100_000, 0);
    ps.update(100_000, 0);
    ps.update(100_000, 0);
    assert_eq!(ps.get_particle_count(), 90);
    // a frame too short to spawn a whole particle spawns none
    ps.update(3_000, 0);
    assert_eq!(ps.get_particle_count(), 90);
}

#[test]
fn all_particles_age_out_after_their_lifespans() {
    let mut ps = ParticleSystem::new(origin(), 0);
    ps.emit = true;
    ps.update(100_000, 0);
    assert!(ps.get_particle_count() > 0);
    ps.emit = false;
    // lifespans are bounded by 1.5 s; twenty seconds later all are gone
    ps.update(100_000, 20_000_000);
    assert_eq!(ps.get_particle_count(), 0);
}

#[test]
fn cull_is_idempotent_for_particles() {
    let mut ps = ParticleSystem::new(origin(), 0);
    ps.emit = true;
    ps.update(100_000, 0);
    ps.emit = false;
    ps.kill_particles(60_000);
    let after_once: usize = ps.get_particle_count();
    ps.kill_particles(60_000);
    assert_eq!(ps.get_particle_count(), after_once);
}

#[test]
fn spawned_draws_respect_their_ranges() {
    let mut ps = ParticleSystem::new(origin(), 0);
    ps.emit = true;
    ps.update(1_000_000, 0); // one full second: 300 particles
    assert_eq!(ps.get_particle_count(), 300);
    // the same frame already advanced each spawn once: 15 px of growth
    let growth: i64 = 15_000_000;
    for p in ps.particles.iter() {
        let drawn = p.radius - growth;
        assert!(drawn >= DUST_PARTICLE_MIN_RAD);
        assert!(drawn < DUST_PARTICLE_MAX_RAD); // the upper bound is exclusive
        assert!(p.time_created == 0);
        assert!(p.lifespan >= 1);
        // lifespan = life * radius with life strictly under 0.15 s/px
        assert!(p.lifespan * 1_000_000 < 150_000 * drawn);
        assert_eq!(p.alpha, 230); // a newborn fades from full remaining life
    }
}

#[test]
fn single_spawn_from_chosen_draws_is_deterministic() {
    let mut ps = ParticleSystem::new(Vec2 { x: 5_000_000, y: 6_000_000 }, 0);
    // speed 50 px/s straight along the spawn angle, radius 2 px,
    // lifespan 0.1 s/px, no offset
    ps.spawn_single_particle(7, 50_000_000, 0, 2_000_000, 100_000, 0, 0);
    assert_eq!(ps.get_particle_count(), 1);
    let p = ps.particles[0];
    assert_eq!(p.time_created, 7);
    assert_eq!(p.radius, 2_000_000);
    assert_eq!(p.lifespan, 200_000); // 0.1 s/px * 2 px
    assert_eq!(p.pos, Vec2 { x: 5_000_000, y: 6_000_000 });
    assert_eq!(p.vel, Vec2 { x: 0, y: 50_000_000 }); // angle 0 points along +y
    assert_eq!(p.alpha, 255);
}

#[test]
fn particle_fade_follows_remaining_life() {
    let mut p = Particle {
        pos: origin(),
        vel: Vec2 { x: 1_000_000, y: 0 },
        radius: 1_000_000,
        time_created: 0,
        lifespan: 800_000,
        alpha: 255,
    };
    let mut q = p;
    p.update(0, 0);
    assert_eq!(p.alpha, 230); // full remaining life
    q.update(0, 400_000);
    assert_eq!(q.alpha, 58); // half remaining life: ceil(230 / 4)
}

#[test]
fn particle_advances_position_and_radius() {
    let mut p = Particle {
        pos: origin(),
        vel: Vec2 { x: 10_000_000, y: -4_000_000 },
        radius: 1_000_000,
        time_created: 0,
        lifespan: 800_000,
        alpha: 255,
    };
    p.update(100_000, 0);
    assert_eq!(p.pos, Vec2 { x: 1_000_000, y: -400_000 });
    assert_eq!(p.radius, 2_500_000); // grows by 15 px/s
    assert_eq!(p.vel, Vec2 { x: 10_000_000, y: -4_000_000 });
}

#[test]
fn emit_configures_both_pools_and_spawns_immediately() {
    let mut dust = CarDustSystems::default();
    assert!(!dust.left.emit && !dust.right.emit);
    let bl = Vec2 { x: 1_000_000, y: 2_000_000 };
    let br = Vec2 { x: 3_000_000, y: 4_000_000 };
    // full slip modulation, a tenth of a second
    dust.emit(100_000, 0, 500_000, SCALE, bl, br);
    assert!(dust.left.emit && dust.right.emit);
    assert_eq!(dust.left.em_rate, DUST_PARTICLES_EMM_RATE);
    assert_eq!(dust.left.max_rad, DUST_PARTICLE_MAX_RAD);
    assert_eq!(dust.left.spawn_pos, bl);
    assert_eq!(dust.right.spawn_pos, br);
    assert_eq!(dust.left.spawn_angle, 1_000_000); // player angle plus a half turn
    assert_eq!(dust.get_particle_count(), 60);
}

#[test]
fn emit_at_low_slip_keeps_a_minimum_radius() {
    let mut dust = CarDustSystems::default();
    // five percent slip: the scaled maximum radius would fall under half a
    // pixel, so it is floored there
    dust.emit(10_000, 0, 0, 50_000, origin(), origin());
    assert_eq!(dust.left.max_rad, 500_000);
    assert_eq!(dust.left.em_rate, 15_000_000); // 300/s scaled by 0.05
}
