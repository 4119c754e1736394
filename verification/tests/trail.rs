//! Trail recording, age-culling and the fade curve.

use drift::drift_trail::{
    trail_alpha, trail_segment_visible, DriftTrailSet, TrailRecorder, TRAIL_DURATION,
    TRAIL_PLACEMENT_INTERVAL,
};
use drift::vec2::Vec2;

fn pt(x: i64, y: i64) -> Vec2 {
    Vec2 { x, y }
}

fn node_at(time: i64) -> DriftTrailSet {
    DriftTrailSet::new(time, pt(0, 0), pt(1, 0), pt(0, 1), pt(1, 1))
}

#[test]
fn record_is_gated_by_placement_interval() {
    let mut t = TrailRecorder::new();
    t.record(0, pt(0, 0), pt(1, 0), pt(0, 1), pt(1, 1));
    assert_eq!(t.node_count(), 0); // timer has not accumulated yet
    t.advance_timer(TRAIL_PLACEMENT_INTERVAL);
    t.record(5, pt(0, 0), pt(1, 0), pt(0, 1), pt(1, 1));
    assert_eq!(t.node_count(), 1);
    assert_eq!(t.timer, 0); // recording resets the timer
    t.record(6, pt(0, 0), pt(1, 0), pt(0, 1), pt(1, 1));
    assert_eq!(t.node_count(), 1); // interval not elapsed again
    assert_eq!(t.nodes[0].time_created, 5);
}

#[test]
fn cull_drops_only_expired_nodes() {
    let mut t = TrailRecorder::new();
    t.nodes.push(node_at(0));
    t.nodes.push(node_at(2_000_000));
    t.nodes.push(node_at(3_400_000));
    let now = TRAIL_DURATION + 100_000; // 3.6 s: only the first has expired
    t.cull(now);
    assert_eq!(t.node_count(), 2);
    assert_eq!(t.nodes[0].time_created, 2_000_000);
    assert_eq!(t.nodes[1].time_created, 3_400_000);
    for n in t.nodes.iter() {
        assert!(now - n.time_created <= TRAIL_DURATION);
    }
}

#[test]
fn cull_is_idempotent() {
    let mut t = TrailRecorder::new();
    t.nodes.push(node_at(0));
    t.nodes.push(node_at(1_000_000));
    t.nodes.push(node_at(5_000_000));
    t.cull(4_200_000);
    let after_once: Vec<i64> = t.nodes.iter().map(|n| n.time_created).collect();
    t.cull(4_200_000);
    let after_twice: Vec<i64> = t.nodes.iter().map(|n| n.time_created).collect();
    assert_eq!(after_once, after_twice);
}

#[test]
fn fade_curve_endpoints_and_midpoints() {
    // A fresh node draws fully opaque; an expiring one fully transparent.
    assert_eq!(trail_alpha(0, 0), 255);
    assert_eq!(trail_alpha(0, TRAIL_DURATION), 0);
    // The curve saturates over the first two thirds of the window...
    assert_eq!(trail_alpha(0, TRAIL_DURATION / 2), 255);
    // ...then falls off logarithmically.
    assert_eq!(trail_alpha(0, 3_000_000), 130);
}

#[test]
fn segments_join_only_consecutive_close_nodes() {
    let mut t = TrailRecorder::new();
    let mut add = |time: i64, x: i64| {
        t.nodes
            .push(DriftTrailSet::new(time, pt(x, 0), pt(x, 1), pt(x, 2), pt(x, 3)));
    };
    add(0, 0);
    add(10, 1_000_000);
    add(20, 2_000_000);
    add(30, 900_000_000); // a teleport: no stroke back to the pack
    let segs = t.segments(100_000);
    assert_eq!(segs.len(), 2);
    assert_eq!(segs[0].from.time_created, 0);
    assert_eq!(segs[0].to.time_created, 10);
    assert_eq!(segs[1].from.time_created, 10);
    assert_eq!(segs[1].to.time_created, 20);
    assert_eq!(segs[0].alpha, 255); // all nodes are fresh
}

#[test]
fn segment_skipped_across_a_teleport() {
    let near = DriftTrailSet::new(0, pt(0, 0), pt(1, 0), pt(0, 1), pt(1, 1));
    let close = DriftTrailSet::new(1, pt(9_000_000, 0), pt(1, 0), pt(0, 1), pt(1, 1));
    let far = DriftTrailSet::new(2, pt(50_000_000, 0), pt(1, 0), pt(0, 1), pt(1, 1));
    assert!(trail_segment_visible(&near, &close));
    assert!(!trail_segment_visible(&near, &far));
}
