//! Skid-mark trail recording.
//!
//! While the vehicle drifts, a timestamped snapshot of the four
//! wheel-contact points is appended at a rate-limited interval. Nodes older
//! than the retention window are culled every frame, so the pool never
//! holds a stale entry. The fade curve and the gap test used when the trail
//! is rendered are pure functions and live here too.

use vstd::prelude::*;

verus! {

use crate::fx::SCALE;
use crate::fx::FX_MAX;
use crate::vec2::Vec2;
use crate::filtering::lemma_filter_push;
use crate::filtering::lemma_filter_idempotent;
use crate::filtering::lemma_filter_none;

/// How long a trail node is retained, in micro-seconds (3.5 s).
pub const TRAIL_DURATION: i64 = 3_500_000;

/// Minimum time between two recorded nodes (7 ms).
pub const TRAIL_PLACEMENT_INTERVAL: i64 = 7_000;

/// Two consecutive nodes farther apart than this are not joined when drawn.
pub const TRAIL_GAP: i64 = 10_000_000;

/// Stroke width used when the trail is rendered (3.5 px).
pub const DRIFT_TRAIL_WIDTH: i64 = 3_500_000;

/// One timestamped snapshot of the four wheel-contact points.
#[derive(Clone, Copy, PartialEq, Eq, Structural, Debug)]
pub struct DriftTrailSet {
    pub left_front: Vec2,
    pub right_front: Vec2,
    pub left_back: Vec2,
    pub right_back: Vec2,
    pub time_created: i64,
}

impl DriftTrailSet {
    /// Snapshot the four wheel positions at a creation time.
    pub fn new(time: i64, left_front: Vec2, right_front: Vec2, left_back: Vec2, right_back: Vec2)
        -> (r: DriftTrailSet)
        ensures
            r == (DriftTrailSet { left_front, right_front, left_back, right_back, time_created:
                time }),
    {
        DriftTrailSet { left_front, right_front, left_back, right_back, time_created: time }
    }
}

/// A node is fresh at `now` when it is no older than the retention window.
pub open spec fn trail_fresh(now: int) -> spec_fn(DriftTrailSet) -> bool {
    |n: DriftTrailSet| now - n.time_created <= TRAIL_DURATION as int
}

/// A well-formed node: a sane timestamp and representable wheel points.
pub open spec fn node_wf(n: DriftTrailSet) -> bool {
    &&& 0 <= n.time_created <= FX_MAX
    &&& n.left_front.in_range()
    &&& n.right_front.in_range()
    &&& n.left_back.in_range()
    &&& n.right_back.in_range()
}

/// The time-ordered pool of trail nodes, with the placement-interval timer.
pub struct TrailRecorder {
    pub nodes: Vec<DriftTrailSet>,
    pub timer: i64,
}

impl TrailRecorder {
    /// Every node in the pool is well formed.
    pub open spec fn wf(self) -> bool {
        forall|i: int| 0 <= i < self.nodes@.len() ==> node_wf(#[trigger] self.nodes@[i])
    }

    /// An empty trail with the timer at zero.
    pub fn new() -> (r: TrailRecorder)
        ensures
            r.nodes@ == Seq::<DriftTrailSet>::empty(),
            r.timer == 0,
    {
        let nodes: Vec<DriftTrailSet> = Vec::new();
        proof {
            assert(nodes@ =~= Seq::<DriftTrailSet>::empty());
        }
        TrailRecorder { nodes, timer: 0 }
    }

    /// Advance the placement timer by the frame time.
    pub fn advance_timer(&mut self, dt: i64)
        ensures
            final (self).timer as int == crate::fx::fx_add_spec(old(self).timer as int, dt as int),
            final (self).nodes == old(self).nodes,
    {
        self.timer = crate::fx::fx_add(self.timer, dt);
    }

    /// Drop every node older than the retention window. Afterward each
    /// retained node is fresh at `now`, order is kept, and nothing else
    /// changes.
    pub fn cull(&mut self, now: i64)
        requires
            old(self).wf(),
            0 <= now <= FX_MAX,
        ensures
            final (self).wf(),
            final (self).nodes@ == old(self).nodes@.filter(trail_fresh(now as int)),
            final (self).timer == old(self).timer,
            forall|i: int|
                0 <= i < final (self).nodes@.len() ==> now - (#[trigger] final (self).nodes@[i]).time_created
                    <= TRAIL_DURATION,
    {
        let ghost pred = trail_fresh(now as int);
        let mut kept: Vec<DriftTrailSet> = Vec::new();
        let n = self.nodes.len();
        proof {
            assert(self.nodes@.subrange(0, 0) =~= Seq::<DriftTrailSet>::empty());
            reveal(Seq::filter);
        }
        let mut i: usize = 0;
        while i < n
            invariant
                n == self.nodes@.len(),
                0 <= i <= n,
                self.wf(),
                0 <= now <= FX_MAX,
                kept@ == self.nodes@.subrange(0, i as int).filter(pred),
                forall|j: int| 0 <= j < kept@.len() ==> node_wf(#[trigger] kept@[j]),
                pred == trail_fresh(now as int),
            decreases n - i,
        {
            let node = self.nodes[i];
            proof {
                assert(self.nodes@.subrange(0, i as int + 1) =~= self.nodes@.subrange(
                    0,
                    i as int,
                ).push(node));
                lemma_filter_push(self.nodes@.subrange(0, i as int), node, pred);
            }
            if now - node.time_created <= TRAIL_DURATION {
                kept.push(node);
            }
            i = i + 1;
        }
        proof {
            assert(self.nodes@.subrange(0, n as int) =~= self.nodes@);
        }
        self.nodes = kept;
        proof {
            assert forall|j: int| 0 <= j < self.nodes@.len() implies now - (#[trigger] self
                .nodes@[j]).time_created <= TRAIL_DURATION by {
                old(self).nodes@.lemma_filter_pred(pred, j);
            }
        }
    }

    /// Record one node if the placement interval has elapsed; otherwise do
    /// nothing. Recording resets the timer.
    pub fn record(&mut self, now: i64, left_front: Vec2, right_front: Vec2, left_back: Vec2,
        right_back: Vec2)
        requires
            old(self).wf(),
            0 <= now <= FX_MAX,
            left_front.in_range(),
            right_front.in_range(),
            left_back.in_range(),
            right_back.in_range(),
        ensures
            final (self).wf(),
            old(self).timer >= TRAIL_PLACEMENT_INTERVAL ==> {
                &&& final (self).nodes@ == old(self).nodes@.push(
                    DriftTrailSet { left_front, right_front, left_back, right_back, time_created:
                    now },
                )
                &&& final (self).timer == 0
            },
            old(self).timer < TRAIL_PLACEMENT_INTERVAL ==> *final (self) == *old(self),
    {
        if self.timer >= TRAIL_PLACEMENT_INTERVAL {
            let node = DriftTrailSet::new(now, left_front, right_front, left_back, right_back);
            self.nodes.push(node);
            self.timer = 0;
        }
    }

    /// How many nodes are currently alive.
    pub fn node_count(&self) -> (c: usize)
        ensures
            c == self.nodes@.len(),
    {
        self.nodes.len()
    }

    /// Culling twice at the same instant changes nothing the second time.
    pub proof fn lemma_cull_idempotent(s: Seq<DriftTrailSet>, now: int)
        ensures
            s.filter(trail_fresh(now)).filter(trail_fresh(now)) == s.filter(trail_fresh(now)),
    {
        lemma_filter_idempotent(s, trail_fresh(now));
    }

    /// Once every node has outlived the retention window, a cull empties
    /// the pool.
    pub proof fn lemma_cull_all_expired(s: Seq<DriftTrailSet>, now: int)
        requires
            forall|i: int|
                0 <= i < s.len() ==> now - (#[trigger] s[i]).time_created > TRAIL_DURATION as int,
        ensures
            s.filter(trail_fresh(now)) == Seq::<DriftTrailSet>::empty(),
    {
        lemma_filter_none(s, trail_fresh(now));
    }
}

/// One squaring step of the base-two logarithm's fractional expansion:
/// the next mantissa, still within `[SCALE, 2 * SCALE)`.
pub open spec fn lstep_y(y: int) -> int {
    let y2 = (y * y) / (SCALE as int);
    if y2 >= 2 * (SCALE as int) {
        y2 / 2
    } else {
        y2
    }
}

/// The bit produced by one squaring step.
pub open spec fn lstep_b(y: int) -> int {
    let y2 = (y * y) / (SCALE as int);
    if y2 >= 2 * (SCALE as int) {
        1int
    } else {
        0int
    }
}

/// One squaring step, executable: returns the next mantissa and the bit.
fn lstep(y: i64) -> (res: (i64, i64))
    requires
        SCALE <= y < 2 * SCALE,
    ensures
        res.0 as int == lstep_y(y as int),
        res.1 as int == lstep_b(y as int),
        SCALE <= res.0 < 2 * SCALE,
        0 <= res.1 <= 1,
{
    proof {
        let s = SCALE as int;
        let yi = y as int;
        assert(s * s <= yi * yi && yi * yi <= (2 * s - 1) * (2 * s - 1)) by (nonlinear_arith)
            requires
                s <= yi < 2 * s,
                s >= 1,
        ;
        vstd::arithmetic::div_mod::lemma_div_is_ordered(s * s, yi * yi, s);
        vstd::arithmetic::div_mod::lemma_div_is_ordered(yi * yi, (2 * s - 1) * (2 * s - 1), s);
        vstd::arithmetic::div_mod::lemma_div_multiples_vanish(s, s);
        assert((2 * s - 1) * (2 * s - 1) == 3_999_996_000_001int) by (nonlinear_arith)
            requires
                s == 1_000_000int,
        ;
        assert(3_999_996_000_001int / 1_000_000int == 3_999_996int) by {
            vstd::arithmetic::div_mod::lemma_fundamental_div_mod_converse_mod(
                3_999_996_000_001int,
                1_000_000int,
                3_999_996int,
                1int,
            );
            vstd::arithmetic::div_mod::lemma_fundamental_div_mod(3_999_996_000_001int,
                1_000_000int);
        }
    }
    let y2 = (y as u64) * (y as u64) / (SCALE as u64);
    if y2 >= 2 * (SCALE as u64) {
        ((y2 / 2) as i64, 1)
    } else {
        (y2 as i64, 0)
    }
}

/// Eight bits of the fractional part of `log2(y0 / SCALE)`, for a mantissa
/// in `[SCALE, 2 * SCALE)`.
pub open spec fn frac_bits8(y0: int) -> int {
    let y1 = lstep_y(y0);
    let y2 = lstep_y(y1);
    let y3 = lstep_y(y2);
    let y4 = lstep_y(y3);
    let y5 = lstep_y(y4);
    let y6 = lstep_y(y5);
    let y7 = lstep_y(y6);
    128 * lstep_b(y0) + 64 * lstep_b(y1) + 32 * lstep_b(y2) + 16 * lstep_b(y3) + 8 * lstep_b(y4)
        + 4 * lstep_b(y5) + 2 * lstep_b(y6) + lstep_b(y7)
}

fn frac_bits(y0: i64) -> (b: i64)
    requires
        SCALE <= y0 < 2 * SCALE,
    ensures
        b as int == frac_bits8(y0 as int),
        0 <= b <= 255,
{
    let (y1, b0) = lstep(y0);
    let (y2, b1) = lstep(y1);
    let (y3, b2) = lstep(y2);
    let (y4, b3) = lstep(y3);
    let (y5, b4) = lstep(y4);
    let (y6, b5) = lstep(y5);
    let (y7, b6) = lstep(y6);
    let (_y8, b7) = lstep(y7);
    128 * b0 + 64 * b1 + 32 * b2 + 16 * b3 + 8 * b4 + 4 * b5 + 2 * b6 + b7
}

/// `log2(x / SCALE)` for `x` in `[SCALE, 4 * SCALE]`, counted in 1/256
/// steps: an exact 0, 256 or 512 at the powers of two.
pub open spec fn log2_steps_spec(x: int) -> int {
    if x >= 4 * (SCALE as int) {
        512 + frac_bits8(x / 4)
    } else if x >= 2 * (SCALE as int) {
        256 + frac_bits8(x / 2)
    } else {
        frac_bits8(x)
    }
}

fn log2_steps(x: i64) -> (r: i64)
    requires
        SCALE <= x <= 4 * SCALE,
    ensures
        r as int == log2_steps_spec(x as int),
        0 <= r <= 767,
{
    if x >= 4 * SCALE {
        512 + frac_bits(x / 4)
    } else if x >= 2 * SCALE {
        256 + frac_bits(x / 2)
    } else {
        frac_bits(x)
    }
}

/// The rendered alpha of a trail node at a query time: a logarithmic fade
/// of the age normalized to the retention window, clamped to 255. A fresh
/// node draws fully opaque, an expiring one fully transparent.
pub open spec fn trail_alpha_spec(time_created: int, now: int) -> int {
    let age = now - time_created;
    let arg = 4 * (SCALE as int) - (3 * age * (SCALE as int)) / (TRAIL_DURATION as int);
    let a = (log2_steps_spec(arg) * 255) / 256;
    if a > 255 {
        255
    } else {
        a
    }
}

/// The alpha for a node of the given age.
pub fn trail_alpha(time_created: i64, now: i64) -> (a: u8)
    requires
        0 <= time_created,
        time_created <= now,
        now <= FX_MAX,
        now - time_created <= TRAIL_DURATION,
    ensures
        a as int == trail_alpha_spec(time_created as int, now as int),
{
    let age = now - time_created;
    proof {
        let d = TRAIL_DURATION as int;
        let s = SCALE as int;
        let ai = age as int;
        assert(0 <= 3 * ai * s && 3 * ai * s <= d * (3 * s)) by (nonlinear_arith)
            requires
                0 <= ai <= d,
                s >= 1,
        ;
        vstd::arithmetic::div_mod::lemma_div_is_ordered(3 * ai * s, d * (3 * s), d);
        vstd::arithmetic::div_mod::lemma_div_multiples_vanish(3 * s, d);
        vstd::arithmetic::div_mod::lemma_div_pos_is_pos(3 * ai * s, d);
    }
    let scaled = (3 * (age as u64) * (SCALE as u64)) / (TRAIL_DURATION as u64);
    let arg = 4 * SCALE - (scaled as i64);
    let steps = log2_steps(arg);
    let a = (((steps as u64) * 255) / 256) as i64;
    if a > 255 {
        255
    } else {
        a as u8
    }
}

/// Whether the segment between two consecutive nodes is drawn: it is
/// skipped when their left-front points are farther apart than the gap
/// threshold, so a teleport or reset leaves no stretched line.
pub open spec fn segment_visible_spec(prev: DriftTrailSet, cur: DriftTrailSet) -> bool {
    prev.left_front.sub_spec(cur.left_front).length_spec() < TRAIL_GAP as int
}

/// The executable gap test between two consecutive nodes.
pub fn trail_segment_visible(prev: &DriftTrailSet, cur: &DriftTrailSet) -> (r: bool)
    requires
        prev.left_front.in_range(),
        cur.left_front.in_range(),
    ensures
        r == segment_visible_spec(*prev, *cur),
{
    prev.left_front.distance_to(cur.left_front) < TRAIL_GAP
}

/// One drawable stroke of the skid marks: the two nodes to join, and the
/// alpha from the newer node's age.
#[derive(Clone, Copy, PartialEq, Eq, Structural, Debug)]
pub struct TrailSegment {
    pub from: DriftTrailSet,
    pub to: DriftTrailSet,
    pub alpha: u8,
}

/// Every consecutive pair of nodes that passes the gap test, in order,
/// each with its fade alpha.
pub open spec fn segments_spec(nodes: Seq<DriftTrailSet>, now: int) -> Seq<TrailSegment>
    decreases nodes.len(),
{
    if nodes.len() <= 1 {
        Seq::<TrailSegment>::empty()
    } else {
        let prefix = segments_spec(nodes.drop_last(), now);
        let prev = nodes[nodes.len() - 2];
        let cur = nodes[nodes.len() - 1];
        if segment_visible_spec(prev, cur) {
            prefix.push(
                TrailSegment {
                    from: prev,
                    to: cur,
                    alpha: trail_alpha_spec(cur.time_created as int, now) as u8,
                },
            )
        } else {
            prefix
        }
    }
}

impl TrailRecorder {
    /// What a renderer draws for the current trail at `now`: each pair of
    /// consecutive nodes close enough to join, with the stroke alpha of
    /// the newer node.
    pub fn segments(&self, now: i64) -> (segs: Vec<TrailSegment>)
        requires
            self.wf(),
            0 <= now <= FX_MAX,
            forall|i: int|
                0 <= i < self.nodes@.len() ==> (#[trigger] self.nodes@[i]).time_created <= now
                    && now - self.nodes@[i].time_created <= TRAIL_DURATION,
        ensures
            segs@ == segments_spec(self.nodes@, now as int),
    {
        let mut segs: Vec<TrailSegment> = Vec::new();
        let n = self.nodes.len();
        proof {
            if n > 0 {
                assert(self.nodes@.subrange(0, 1).len() == 1);
                assert(segs@ =~= segments_spec(self.nodes@.subrange(0, 1), now as int));
            } else {
                assert(segs@ =~= segments_spec(self.nodes@, now as int));
            }
        }
        if n <= 1 {
            return segs;
        }
        let mut i: usize = 1;
        while i < n
            invariant
                n == self.nodes@.len(),
                1 <= i <= n,
                self.wf(),
                0 <= now <= FX_MAX,
                forall|j: int|
                    0 <= j < self.nodes@.len() ==> (#[trigger] self.nodes@[j]).time_created <= now
                        && now - self.nodes@[j].time_created <= TRAIL_DURATION,
                segs@ == segments_spec(self.nodes@.subrange(0, i as int), now as int),
            decreases n - i,
        {
            let prev = self.nodes[i - 1];
            let cur = self.nodes[i];
            proof {
                let sub = self.nodes@.subrange(0, i as int + 1);
                assert(sub.len() == i as int + 1);
                assert(sub.drop_last() =~= self.nodes@.subrange(0, i as int));
                assert(sub[i as int - 1] == prev);
                assert(sub[i as int] == cur);
            }
            if trail_segment_visible(&prev, &cur) {
                let alpha = trail_alpha(cur.time_created, now);
                segs.push(TrailSegment { from: prev, to: cur, alpha });
            }
            i = i + 1;
        }
        proof {
            assert(self.nodes@.subrange(0, n as int) =~= self.nodes@);
        }
        segs
    }
}

} // verus!
