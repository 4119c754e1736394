//! Dust particle pools.
//!
//! Each `ParticleSystem` owns a pool of independently aging particles.
//! Every frame it culls the expired ones, spawns `floor(emission_rate * dt)`
//! new ones while emitting, and advances every survivor: position by its
//! velocity, radius linearly, alpha by a power law of remaining life.
//! The random spawn jitter comes from one trusted wrapper around `rand`;
//! everything that consumes a drawn value is verified for every value the
//! wrapper may return.

use vstd::prelude::*;

verus! {

use crate::fx::SCALE;
use crate::fx::FX_MAX;
use crate::fx::MAX_DT;
use crate::fx::sdiv;
use crate::fx::fx_add_spec;
use crate::fx::fx_mul_spec;
use crate::fx::fx_add;
use crate::fx::fx_mul;
use crate::fx::sdiv_i128;
use crate::trig::HALF_TURN;
use crate::vec2::Vec2;
use crate::misc::get_components;
use crate::misc::components_x_spec;
use crate::misc::components_y_spec;
use crate::filtering::lemma_filter_push;
use crate::filtering::lemma_filter_idempotent;
use crate::filtering::lemma_filter_none;

/// Largest radius a particle starts with (10 px).
pub const DUST_PARTICLE_MAX_RAD: i64 = 10_000_000;

/// Smallest radius a particle starts with (1 px).
pub const DUST_PARTICLE_MIN_RAD: i64 = 1_000_000;

/// Radius growth per second (15 px/s).
pub const DUST_PARTICLE_EXPANSION_RATE: i64 = 15_000_000;

/// Longest lifespan per unit of radius (0.15 s/px).
pub const DUST_PARTICLE_MAX_LIFESPAN: i64 = 150_000;

/// Shortest lifespan per unit of radius (0.08 s/px).
pub const DUST_PARTICLE_MIN_LIFESPAN: i64 = 80_000;

/// Particles emitted per second at full modulation.
pub const DUST_PARTICLES_EMM_RATE: i64 = 300_000_000;

/// Slowest spawn speed (10 px/s).
pub const DUST_PARTICLE_MIN_SPEED: i64 = 10_000_000;

/// Fastest spawn speed (100 px/s).
pub const DUST_PARTICLE_MAX_SPEED: i64 = 100_000_000;

/// Spawn angle jitter: an eighth of a turn (pi/4) either way.
pub const DUST_PARTICLE_ANGULAR_VARIATION: i64 = 125_000;

/// Smallest maximum radius `emit` will configure (0.5 px).
pub const DUST_MIN_MAX_RAD: i64 = 500_000;

/// Relies on rand's `Rng::gen_range` on `thread_rng()`: a sample from
/// `lo..hi` lies in `[lo, hi)`, and the range is nonempty so the call
/// cannot panic. Nothing more is assumed of the sample.
#[verifier::external_body]
fn draw_in_range(lo: i64, hi: i64) -> (r: i64)
    requires
        lo < hi,
    ensures
        lo <= r < hi,
{
    rand::Rng::gen_range(&mut rand::thread_rng(), lo..hi)
}

/// One dust particle.
#[derive(Clone, Copy, PartialEq, Eq, Structural, Debug)]
pub struct Particle {
    pub pos: Vec2,
    pub vel: Vec2,
    pub radius: i64,
    pub time_created: i64,
    pub lifespan: i64,
    pub alpha: u8,
}

/// A well-formed particle: representable position and velocity, a
/// nonnegative radius, a sane timestamp, and a positive lifespan.
pub open spec fn particle_wf(p: Particle) -> bool {
    &&& p.pos.in_range()
    &&& p.vel.in_range()
    &&& 0 <= p.radius <= FX_MAX
    &&& 0 <= p.time_created <= FX_MAX
    &&& 1 <= p.lifespan <= FX_MAX
}

/// A particle is fresh at `now` while its age has not passed its lifespan.
pub open spec fn particle_fresh(now: int) -> spec_fn(Particle) -> bool {
    |p: Particle| now - p.time_created <= p.lifespan
}

/// The alpha a particle shows at `now`: 230 times the square of its
/// normalized remaining life, rounded up, with the normalized life clamped
/// into `[0, 1]`.
pub open spec fn particle_alpha_spec(p: Particle, now: int) -> int {
    let s = SCALE as int;
    let q = sdiv((now - p.time_created) * s, p.lifespan as int);
    let n = if s - q < 0 {
        0int
    } else if s - q > s {
        s
    } else {
        s - q
    };
    (230 * (n * n) + s * s - 1) / (s * s)
}

/// A particle one frame later: moved by its velocity, radius expanded,
/// alpha recomputed; creation time and lifespan are untouched.
pub open spec fn particle_advanced(p: Particle, dt: int, now: int) -> Particle {
    Particle {
        pos: Vec2 {
            x: fx_add_spec(p.pos.x as int, fx_mul_spec(p.vel.x as int, dt)) as i64,
            y: fx_add_spec(p.pos.y as int, fx_mul_spec(p.vel.y as int, dt)) as i64,
        },
        vel: p.vel,
        radius: fx_add_spec(
            p.radius as int,
            fx_mul_spec(dt, DUST_PARTICLE_EXPANSION_RATE as int),
        ) as i64,
        time_created: p.time_created,
        lifespan: p.lifespan,
        alpha: particle_alpha_spec(p, now) as u8,
    }
}

impl Particle {
    /// A freshly spawned particle; its lifespan scales with its radius.
    pub fn new(p: Vec2, v: Vec2, time: i64, life: i64, rad: i64) -> (r: Particle)
        requires
            p.in_range(),
            v.in_range(),
            0 <= time <= FX_MAX,
            DUST_PARTICLE_MIN_LIFESPAN <= life <= DUST_PARTICLE_MAX_LIFESPAN,
            DUST_PARTICLE_MIN_RAD <= rad <= FX_MAX,
        ensures
            r.pos == p,
            r.vel == v,
            r.radius == rad,
            r.time_created == time,
            r.lifespan as int == fx_mul_spec(life as int, rad as int),
            r.alpha == 255,
            particle_wf(r),
    {
        let lifespan = fx_mul(life, rad);
        proof {
            let li = life as int;
            let ri = rad as int;
            assert(li * ri >= 80_000int * 1_000_000int) by (nonlinear_arith)
                requires
                    li >= 80_000,
                    ri >= 1_000_000,
            ;
            assert(sdiv(li * ri, SCALE as int) >= 80_000int) by {
                vstd::arithmetic::div_mod::lemma_div_is_ordered(
                    80_000_000_000int,
                    li * ri,
                    SCALE as int,
                );
                vstd::arithmetic::div_mod::lemma_div_multiples_vanish(80_000int, SCALE as int);
            }
        }
        Particle { pos: p, vel: v, radius: rad, time_created: time, lifespan, alpha: 255 }
    }

    /// Advance this particle by one frame.
    pub fn update(&mut self, dt: i64, now: i64)
        requires
            particle_wf(*old(self)),
            0 <= dt <= MAX_DT,
            0 <= now <= FX_MAX,
        ensures
            *final (self) == particle_advanced(*old(self), dt as int, now as int),
            particle_wf(*final (self)),
    {
        let s = SCALE;
        let age: i64 = now - self.time_created;
        proof {
            let w: int = FX_MAX as int;
            assert((age as int) * (s as int) <= w * (s as int) && (age as int) * (s as int) >= -(w
                * (s as int))) by (nonlinear_arith)
                requires
                    -w <= age as int <= w,
                    s as int >= 0,
            ;
        }
        let q128: i128 = sdiv_i128((age as i128) * (s as i128), self.lifespan as i128);
        let diff: i128 = (s as i128) - q128;
        let n: i64 = if diff < 0 {
            0
        } else if diff > s as i128 {
            s
        } else {
            diff as i64
        };
        proof {
            assert((n as int) * (n as int) <= 1_000_000_000_000int) by (nonlinear_arith)
                requires
                    0 <= n as int <= 1_000_000int,
            ;
        }
        let num: u64 = 230 * ((n as u64) * (n as u64)) + (s as u64) * (s as u64) - 1;
        let alpha64: u64 = num / ((s as u64) * (s as u64));
        proof {
            let si = s as int;
            let ni = n as int;
            assert(0 <= 230 * (ni * ni) && 230 * (ni * ni) <= 230 * (si * si))
                by (nonlinear_arith)
                requires
                    0 <= ni <= si,
            ;
            assert(si * si == 1_000_000_000_000int) by (nonlinear_arith)
                requires
                    si == 1_000_000int,
            ;
            assert((num as int) == 230 * (ni * ni) + si * si - 1);
            assert(alpha64 as int == (230 * (ni * ni) + si * si - 1) / (si * si));
            vstd::arithmetic::div_mod::lemma_div_is_ordered(
                230 * (ni * ni) + si * si - 1,
                231 * (si * si) - 1,
                si * si,
            );
            assert(231 * (si * si) - 1 == 231 * 1_000_000_000_000int - 1) by (nonlinear_arith)
                requires
                    si * si == 1_000_000_000_000int,
            ;
            vstd::arithmetic::div_mod::lemma_fundamental_div_mod_converse_mod(
                230_999_999_999_999int,
                1_000_000_000_000int,
                230int,
                999_999_999_999int,
            );
            vstd::arithmetic::div_mod::lemma_fundamental_div_mod(
                230_999_999_999_999int,
                1_000_000_000_000int,
            );
            vstd::arithmetic::div_mod::lemma_div_pos_is_pos(
                230 * (ni * ni) + si * si - 1,
                si * si,
            );
        }
        let alpha: u8 = alpha64 as u8;
        self.alpha = alpha;
        self.radius = fx_add(self.radius, fx_mul(dt, DUST_PARTICLE_EXPANSION_RATE));
        self.pos = self.pos.add(self.vel.scale_by(dt));
    }
}

/// Pushing onto a sequence leaves every proper prefix unchanged.
proof fn lemma_push_prefix<A>(s: Seq<A>, x: A, n: int)
    requires
        0 <= n <= s.len(),
    ensures
        s.push(x).subrange(0, n) == s.subrange(0, n),
{
    assert(s.push(x).subrange(0, n) =~= s.subrange(0, n));
}

/// A pool of dust particles together with its emission configuration.
pub struct ParticleSystem {
    pub particles: Vec<Particle>,
    pub emit: bool,
    pub max_rad: i64,
    pub em_rate: i64,
    pub spawn_pos: Vec2,
    pub spawn_angle: i64,
}

/// What always holds of a particle spawned at `now`, whatever the random
/// draws were.
pub open spec fn spawned_ok(p: Particle, now: int) -> bool {
    &&& particle_wf(p)
    &&& p.time_created == now
    &&& DUST_PARTICLE_MIN_RAD <= p.radius <= DUST_PARTICLE_MAX_RAD
    &&& p.lifespan <= 1_500_000
    &&& p.alpha == 255
}

/// The particle that one spawn pass produces from the given jitter draws.
pub open spec fn spawned_particle_spec(
    sys: ParticleSystem,
    now: int,
    speed: int,
    angle_jitter: int,
    rad: int,
    life: int,
    off_dist: int,
    off_dir: int,
) -> Particle {
    let ang = fx_add_spec(sys.spawn_angle as int, angle_jitter);
    Particle {
        pos: Vec2 {
            x: fx_add_spec(sys.spawn_pos.x as int, components_x_spec(off_dist, off_dir)) as i64,
            y: fx_add_spec(sys.spawn_pos.y as int, components_y_spec(off_dist, off_dir)) as i64,
        },
        vel: Vec2 {
            x: components_x_spec(speed, ang) as i64,
            y: components_y_spec(speed, ang) as i64,
        },
        radius: rad as i64,
        time_created: now as i64,
        lifespan: fx_mul_spec(life, rad) as i64,
        alpha: 255,
    }
}

impl ParticleSystem {
    /// Every particle well formed and the configuration within its
    /// documented ranges.
    pub open spec fn wf(self) -> bool {
        &&& forall|i: int|
            0 <= i < self.particles@.len() ==> particle_wf(#[trigger] self.particles@[i])
        &&& 0 <= self.em_rate <= DUST_PARTICLES_EMM_RATE
        &&& 0 <= self.max_rad <= DUST_PARTICLE_MAX_RAD
        &&& self.spawn_pos.in_range()
        &&& -FX_MAX <= self.spawn_angle <= FX_MAX
    }

    /// The configuration fields, unchanged between two states.
    pub open spec fn same_config(self, o: ParticleSystem) -> bool {
        &&& self.emit == o.emit
        &&& self.max_rad == o.max_rad
        &&& self.em_rate == o.em_rate
        &&& self.spawn_pos == o.spawn_pos
        &&& self.spawn_angle == o.spawn_angle
    }

    /// An idle pool emitting nothing, configured at the given spawn point.
    pub fn new(p: Vec2, angle: i64) -> (r: ParticleSystem)
        requires
            p.in_range(),
            -FX_MAX <= angle <= FX_MAX,
        ensures
            r.particles@ == Seq::<Particle>::empty(),
            r.emit == false,
            r.em_rate == DUST_PARTICLES_EMM_RATE,
            r.max_rad == DUST_PARTICLE_MAX_RAD,
            r.spawn_pos == p,
            r.spawn_angle == angle,
            r.wf(),
    {
        let particles: Vec<Particle> = Vec::new();
        proof {
            assert(particles@ =~= Seq::<Particle>::empty());
        }
        ParticleSystem {
            particles,
            emit: false,
            max_rad: DUST_PARTICLE_MAX_RAD,
            em_rate: DUST_PARTICLES_EMM_RATE,
            spawn_pos: p,
            spawn_angle: angle,
        }
    }

    /// How many particles one update spawns: the emission rate times the
    /// frame time, rounded down to whole particles.
    pub open spec fn spawn_count_spec(em_rate: int, dt: int) -> int {
        sdiv(fx_mul_spec(em_rate, dt), SCALE as int)
    }

    /// Drop every particle that has outlived its lifespan.
    pub fn kill_particles(&mut self, now: i64)
        requires
            old(self).wf(),
            0 <= now <= FX_MAX,
        ensures
            final (self).wf(),
            final (self).particles@ == old(self).particles@.filter(particle_fresh(now as int)),
            final (self).same_config(*old(self)),
            forall|i: int|
                0 <= i < final (self).particles@.len() ==> now - (#[trigger] final (self).particles@[i]).time_created
                    <= final (self).particles@[i].lifespan,
    {
        let ghost pred = particle_fresh(now as int);
        let mut kept: Vec<Particle> = Vec::new();
        let n = self.particles.len();
        proof {
            assert(self.particles@.subrange(0, 0) =~= Seq::<Particle>::empty());
            reveal(Seq::filter);
        }
        let mut i: usize = 0;
        while i < n
            invariant
                n == self.particles@.len(),
                0 <= i <= n,
                self.wf(),
                0 <= now <= FX_MAX,
                kept@ == self.particles@.subrange(0, i as int).filter(pred),
                forall|j: int| 0 <= j < kept@.len() ==> particle_wf(#[trigger] kept@[j]),
                pred == particle_fresh(now as int),
            decreases n - i,
        {
            let p = self.particles[i];
            proof {
                assert(self.particles@.subrange(0, i as int + 1) =~= self.particles@.subrange(
                    0,
                    i as int,
                ).push(p));
                lemma_filter_push(self.particles@.subrange(0, i as int), p, pred);
            }
            if now - p.time_created <= p.lifespan {
                kept.push(p);
            }
            i = i + 1;
        }
        proof {
            assert(self.particles@.subrange(0, n as int) =~= self.particles@);
        }
        self.particles = kept;
        proof {
            assert forall|j: int| 0 <= j < self.particles@.len() implies now - (
            #[trigger] self.particles@[j]).time_created <= self.particles@[j].lifespan by {
                old(self).particles@.lemma_filter_pred(pred, j);
            }
        }
    }

    /// Spawn one particle from the given draws. Public so that the logic
    /// downstream of the random source can be exercised on chosen values.
    pub fn spawn_single_particle(&mut self, now: i64, speed: i64, angle_jitter: i64, rad: i64,
        life: i64, off_dist: i64, off_dir: i64)
        requires
            old(self).wf(),
            0 <= now <= FX_MAX,
            DUST_PARTICLE_MIN_SPEED <= speed <= DUST_PARTICLE_MAX_SPEED,
            -DUST_PARTICLE_ANGULAR_VARIATION <= angle_jitter <= DUST_PARTICLE_ANGULAR_VARIATION,
            DUST_PARTICLE_MIN_RAD <= rad <= DUST_PARTICLE_MAX_RAD,
            DUST_PARTICLE_MIN_LIFESPAN <= life <= DUST_PARTICLE_MAX_LIFESPAN,
            0 <= off_dist <= DUST_PARTICLE_MAX_RAD,
            0 <= off_dir <= FX_MAX,
        ensures
            final (self).wf(),
            final (self).same_config(*old(self)),
            final (self).particles@ == old(self).particles@.push(
                spawned_particle_spec(
                    *old(self),
                    now as int,
                    speed as int,
                    angle_jitter as int,
                    rad as int,
                    life as int,
                    off_dist as int,
                    off_dir as int,
                ),
            ),
            spawned_ok(final (self).particles@.last(), now as int),
    {
        let dir_angle = fx_add(self.spawn_angle, angle_jitter);
        let vel = get_components(speed, dir_angle);
        let off = get_components(off_dist, off_dir);
        let pos = self.spawn_pos.add(off);
        let p = Particle::new(pos, vel, now, life, rad);
        proof {
            let li = life as int;
            let ri = rad as int;
            assert(li * ri <= 150_000int * 10_000_000int) by (nonlinear_arith)
                requires
                    0 <= li <= 150_000,
                    0 <= ri <= 10_000_000,
            ;
            vstd::arithmetic::div_mod::lemma_div_is_ordered(
                li * ri,
                1_500_000_000_000int,
                SCALE as int,
            );
            vstd::arithmetic::div_mod::lemma_div_multiples_vanish(1_500_000int, SCALE as int);
        }
        self.particles.push(p);
    }

    /// Spawn `floor(em_rate * dt)` particles with random speed, direction
    /// jitter, radius, offset, and lifespan.
    fn spawn_particles(&mut self, dt: i64, now: i64)
        requires
            old(self).wf(),
            0 <= dt <= MAX_DT,
            0 <= now <= FX_MAX,
        ensures
            final (self).wf(),
            final (self).same_config(*old(self)),
            final (self).particles@.len() == old(self).particles@.len()
                + Self::spawn_count_spec(old(self).em_rate as int, dt as int),
            final (self).particles@.subrange(0, old(self).particles@.len() as int) == old(
                self,
            ).particles@,
            forall|i: int|
                old(self).particles@.len() <= i < final (self).particles@.len() ==> spawned_ok(
                    #[trigger] final (self).particles@[i],
                    now as int,
                ),
    {
        let count_fx = fx_mul(self.em_rate, dt);
        proof {
            let e = self.em_rate as int;
            let d = dt as int;
            assert(e * d >= 0) by (nonlinear_arith)
                requires
                    e >= 0,
                    d >= 0,
            ;
            vstd::arithmetic::div_mod::lemma_div_pos_is_pos(e * d, SCALE as int);
            vstd::arithmetic::div_mod::lemma_div_pos_is_pos(count_fx as int, SCALE as int);
        }
        let count = ((count_fx as u64) / (SCALE as u64)) as usize;
        let ghost orig = self.particles@;
        let mut k: usize = 0;
        while k < count
            invariant
                self.wf(),
                self.same_config(*old(self)),
                0 <= k <= count,
                0 <= now <= FX_MAX,
                count as int == Self::spawn_count_spec(old(self).em_rate as int, dt as int),
                orig == old(self).particles@,
                self.particles@.len() == orig.len() + k,
                self.particles@.subrange(0, orig.len() as int) == orig,
                forall|i: int|
                    orig.len() <= i < self.particles@.len() ==> spawned_ok(
                        #[trigger] self.particles@[i],
                        now as int,
                    ),
            decreases count - k,
        {
            let speed = draw_in_range(DUST_PARTICLE_MIN_SPEED, DUST_PARTICLE_MAX_SPEED);
            let jitter = draw_in_range(
                -DUST_PARTICLE_ANGULAR_VARIATION,
                DUST_PARTICLE_ANGULAR_VARIATION,
            );
            let life = draw_in_range(DUST_PARTICLE_MIN_LIFESPAN, DUST_PARTICLE_MAX_LIFESPAN);
            let mut rad = DUST_PARTICLE_MIN_RAD;
            if rad < self.max_rad {
                rad = draw_in_range(DUST_PARTICLE_MIN_RAD, self.max_rad);
            }
            let off_dist = if self.max_rad > 0 {
                draw_in_range(0, self.max_rad)
            } else {
                0
            };
            let off_dir = draw_in_range(0, crate::trig::TURN);
            let ghost before = self.particles@;
            self.spawn_single_particle(now, speed, jitter, rad, life, off_dist, off_dir);
            proof {
                lemma_push_prefix(before, self.particles@.last(), orig.len() as int);
            }
            k = k + 1;
        }
    }

    /// One frame: cull the dead, spawn while emitting, then advance every
    /// survivor.
    pub fn update(&mut self, dt: i64, now: i64)
        requires
            old(self).wf(),
            0 <= dt <= MAX_DT,
            0 <= now <= FX_MAX,
        ensures
            final (self).wf(),
            final (self).same_config(*old(self)),
            final (self).particles@.len() == old(self).particles@.filter(
                particle_fresh(now as int),
            ).len() + if old(self).emit {
                Self::spawn_count_spec(old(self).em_rate as int, dt as int)
            } else {
                0
            },
            forall|i: int|
                0 <= i < old(self).particles@.filter(particle_fresh(now as int)).len()
                    ==> #[trigger] final (self).particles@[i] == particle_advanced(
                    old(self).particles@.filter(particle_fresh(now as int))[i],
                    dt as int,
                    now as int,
                ),
            forall|i: int|
                old(self).particles@.filter(particle_fresh(now as int)).len() <= i
                    < final (self).particles@.len() ==> (#[trigger] final (self).particles@[i]).time_created
                    == now && particle_wf(final (self).particles@[i]),
            forall|i: int|
                0 <= i < final (self).particles@.len() ==> now - (#[trigger] final (self).particles@[i]).time_created
                    <= final (self).particles@[i].lifespan,
    {
        self.kill_particles(now);
        let ghost culled = self.particles@;
        if self.emit {
            self.spawn_particles(dt, now);
        }
        let ghost mid = self.particles@;
        let n = self.particles.len();
        let mut advanced: Vec<Particle> = Vec::new();
        let mut i: usize = 0;
        proof {
            assert(advanced@ =~= Seq::<Particle>::empty());
        }
        while i < n
            invariant
                n == self.particles@.len(),
                0 <= i <= n,
                self.wf(),
                0 <= dt <= MAX_DT,
                0 <= now <= FX_MAX,
                mid == self.particles@,
                advanced@.len() == i as int,
                forall|j: int|
                    0 <= j < i as int ==> #[trigger] advanced@[j] == particle_advanced(
                        mid[j],
                        dt as int,
                        now as int,
                    ),
                forall|j: int| 0 <= j < i as int ==> particle_wf(#[trigger] advanced@[j]),
            decreases n - i,
        {
            let mut p = self.particles[i];
            p.update(dt, now);
            advanced.push(p);
            i = i + 1;
        }
        self.particles = advanced;
        proof {
            let cl = culled.len() as int;
            assert forall|j: int| 0 <= j < self.particles@.len() implies now - (
            #[trigger] self.particles@[j]).time_created <= self.particles@[j].lifespan by {
                if j < cl {
                    assert(mid.subrange(0, cl)[j] == mid[j]);
                    assert(mid[j] == culled[j]);
                } else {
                    assert(spawned_ok(mid[j], now as int));
                }
            }
            assert forall|j: int| cl <= j < self.particles@.len() implies (
            #[trigger] self.particles@[j]).time_created == now && particle_wf(
                self.particles@[j],
            ) by {
                assert(spawned_ok(mid[j], now as int));
            }
        }
    }

    /// How many particles are currently alive.
    pub fn get_particle_count(&self) -> (c: usize)
        ensures
            c == self.particles@.len(),
    {
        self.particles.len()
    }

    /// Culling twice at the same instant changes nothing the second time.
    pub proof fn lemma_cull_idempotent(s: Seq<Particle>, now: int)
        ensures
            s.filter(particle_fresh(now)).filter(particle_fresh(now)) == s.filter(
                particle_fresh(now),
            ),
    {
        lemma_filter_idempotent(s, particle_fresh(now));
    }

    /// A pool in which nothing has expired passes a cull unchanged; over a
    /// run of emitting frames with no expiry, the live count therefore
    /// grows by exactly the spawn count of each frame.
    pub proof fn lemma_cull_keeps_fresh_pool(s: Seq<Particle>, now: int)
        requires
            forall|i: int|
                0 <= i < s.len() ==> now - (#[trigger] s[i]).time_created <= s[i].lifespan as int,
        ensures
            s.filter(particle_fresh(now)) == s,
    {
        crate::filtering::lemma_filter_all(s, particle_fresh(now));
    }

    /// Once every particle has outlived its lifespan, a cull empties the
    /// pool.
    pub proof fn lemma_cull_all_expired(s: Seq<Particle>, now: int)
        requires
            forall|i: int|
                0 <= i < s.len() ==> now - (#[trigger] s[i]).time_created > s[i].lifespan as int,
        ensures
            s.filter(particle_fresh(now)) == Seq::<Particle>::empty(),
    {
        lemma_filter_none(s, particle_fresh(now));
    }
}

impl Default for ParticleSystem {
    /// An idle pool at the origin.
    fn default() -> (r: ParticleSystem)
        ensures
            r.particles@ == Seq::<Particle>::empty(),
            r.emit == false,
            r.em_rate == DUST_PARTICLES_EMM_RATE,
            r.max_rad == DUST_PARTICLE_MAX_RAD,
            r.spawn_pos == (Vec2 { x: 0, y: 0 }),
            r.spawn_angle == 0,
            r.wf(),
    {
        ParticleSystem::new(Vec2::zero(), 0)
    }
}

/// The two dust emitters, one per rear wheel.
pub struct CarDustSystems {
    pub left: ParticleSystem,
    pub right: ParticleSystem,
}

impl CarDustSystems {
    pub open spec fn wf(self) -> bool {
        self.left.wf() && self.right.wf()
    }

    /// Advance both pools by one frame.
    pub fn update(&mut self, dt: i64, now: i64)
        requires
            old(self).wf(),
            0 <= dt <= MAX_DT,
            0 <= now <= FX_MAX,
        ensures
            final (self).wf(),
            final (self).left.same_config(old(self).left),
            final (self).right.same_config(old(self).right),
            final (self).left.particles@.len() == old(self).left.particles@.filter(
                particle_fresh(now as int),
            ).len() + if old(self).left.emit {
                ParticleSystem::spawn_count_spec(old(self).left.em_rate as int, dt as int)
            } else {
                0
            },
            final (self).right.particles@.len() == old(self).right.particles@.filter(
                particle_fresh(now as int),
            ).len() + if old(self).right.emit {
                ParticleSystem::spawn_count_spec(old(self).right.em_rate as int, dt as int)
            } else {
                0
            },
            forall|i: int|
                0 <= i < final (self).left.particles@.len() ==> now - (#[trigger] final (self).left.particles@[i]).time_created
                    <= final (self).left.particles@[i].lifespan,
            forall|i: int|
                0 <= i < final (self).right.particles@.len() ==> now - (#[trigger] final (self).right.particles@[i]).time_created
                    <= final (self).right.particles@[i].lifespan,
    {
        self.left.update(dt, now);
        self.right.update(dt, now);
    }

    /// Start (or keep) emitting: aim both pools at the rear wheels, scale
    /// rate and radius by the slip modulation, and spawn immediately so
    /// dust appears the very frame a drift begins.
    pub fn emit(&mut self, dt: i64, now: i64, player_ang: i64, rate_multiplier: i64,
        back_left_pos: Vec2, back_right_pos: Vec2)
        requires
            old(self).wf(),
            0 <= dt <= MAX_DT,
            0 <= now <= FX_MAX,
            0 <= rate_multiplier <= SCALE,
            -FX_MAX <= player_ang <= FX_MAX,
            back_left_pos.in_range(),
            back_right_pos.in_range(),
        ensures
            final (self).wf(),
            final (self).left.emit && final (self).right.emit,
            final (self).left.em_rate as int == fx_mul_spec(
                DUST_PARTICLES_EMM_RATE as int,
                rate_multiplier as int,
            ),
            final (self).right.em_rate == final (self).left.em_rate,
            final (self).left.max_rad as int == if fx_mul_spec(
                DUST_PARTICLE_MAX_RAD as int,
                rate_multiplier as int,
            ) > DUST_MIN_MAX_RAD as int {
                fx_mul_spec(DUST_PARTICLE_MAX_RAD as int, rate_multiplier as int)
            } else {
                DUST_MIN_MAX_RAD as int
            },
            final (self).right.max_rad == final (self).left.max_rad,
            final (self).left.spawn_pos == back_left_pos,
            final (self).right.spawn_pos == back_right_pos,
            final (self).left.spawn_angle as int == fx_add_spec(
                player_ang as int,
                HALF_TURN as int,
            ),
            final (self).right.spawn_angle == final (self).left.spawn_angle,
            final (self).left.particles@.len() == old(self).left.particles@.len()
                + ParticleSystem::spawn_count_spec(final (self).left.em_rate as int, dt as int),
            final (self).right.particles@.len() == old(self).right.particles@.len()
                + ParticleSystem::spawn_count_spec(final (self).right.em_rate as int, dt as int),
            forall|i: int|
                old(self).left.particles@.len() <= i < final (self).left.particles@.len()
                    ==> spawned_ok(#[trigger] final (self).left.particles@[i], now as int),
            forall|i: int|
                old(self).right.particles@.len() <= i < final (self).right.particles@.len()
                    ==> spawned_ok(#[trigger] final (self).right.particles@[i], now as int),
            final (self).left.particles@.subrange(0, old(self).left.particles@.len() as int)
                == old(self).left.particles@,
            final (self).right.particles@.subrange(0, old(self).right.particles@.len() as int)
                == old(self).right.particles@,
    {
        self.left.emit = true;
        self.right.emit = true;

        let rate = fx_mul(DUST_PARTICLES_EMM_RATE, rate_multiplier);
        proof {
            crate::fx::lemma_fx_mul_unit_bound(DUST_PARTICLES_EMM_RATE as int,
                rate_multiplier as int);
        }
        self.left.em_rate = rate;
        self.right.em_rate = rate;

        let mut mr = fx_mul(DUST_PARTICLE_MAX_RAD, rate_multiplier);
        proof {
            crate::fx::lemma_fx_mul_unit_bound(DUST_PARTICLE_MAX_RAD as int,
                rate_multiplier as int);
        }
        if mr <= DUST_MIN_MAX_RAD {
            mr = DUST_MIN_MAX_RAD;
        }
        self.left.max_rad = mr;
        self.right.max_rad = mr;

        self.left.spawn_pos = back_left_pos;
        self.right.spawn_pos = back_right_pos;

        let ang = fx_add(player_ang, HALF_TURN);
        self.left.spawn_angle = ang;
        self.right.spawn_angle = ang;

        self.left.spawn_particles(dt, now);
        self.right.spawn_particles(dt, now);
    }

    /// Total live particles across both pools.
    pub fn get_particle_count(&self) -> (c: usize)
        requires
            self.left.particles@.len() + self.right.particles@.len() <= usize::MAX,
        ensures
            c == self.left.particles@.len() + self.right.particles@.len(),
    {
        self.left.get_particle_count() + self.right.get_particle_count()
    }
}

impl Default for CarDustSystems {
    /// Both pools idle at the origin.
    fn default() -> (r: CarDustSystems)
        ensures
            r.left.particles@ == Seq::<Particle>::empty(),
            r.right.particles@ == Seq::<Particle>::empty(),
            !r.left.emit && !r.right.emit,
            r.wf(),
    {
        CarDustSystems { left: ParticleSystem::new(Vec2::zero(), 0), right: ParticleSystem::new(
            Vec2::zero(),
            0,
        ) }
    }
}

} // verus!
