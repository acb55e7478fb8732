//! End-to-end tests of the collision engine with scripted oracles.
//!
//! Units used throughout: one subunit is a thousandth of a world unit, one
//! quantum is a millisecond.  A velocity of -100 world units per second is
//! then -100 subunits per quantum, and a tick of a tenth of a second is 100
//! quanta.

use std::cell::Cell;

use kinematic2d::correction::{
    adjust_object, correction_from_hit, get_collision_correction,
    get_collision_correction_multipass, GetCollisionCorrectionArgs, RayHit, RayQuery, SweepHit,
    MAX_CORRECTION_ITERS,
};
use kinematic2d::object::KinematicObject;
use kinematic2d::vec2::{Vec2, NORMAL_SCALE};
use kinematic2d::velocity::KinematicVelocity;

const UP: Vec2 = Vec2 { x: 0, y: NORMAL_SCALE };

fn v(x: i64, y: i64) -> Vec2 {
    Vec2 { x, y }
}

/// A shape falling straight onto a flat floor stops exactly one padding
/// above the floor, with its vertical velocity removed.
#[test]
fn floor_contact_scenario() {
    // Shape at (0,0); velocity (0,-100) world units/s, set immediately, so
    // previous and current agree and the effective velocity is (0,-150)
    // subunits per quantum.  Floor top at y = -5 units = -5000 subunits,
    // padding 0.01 units = 10 subunits, tick 0.1 s = 100 quanta.
    let mut obj = KinematicObject::new();
    let mut pos = v(0, 0);
    let mut vel = KinematicVelocity::zero();
    vel.hard_assign_y(-100);

    let sweep = |a: GetCollisionCorrectionArgs| -> Option<SweepHit> {
        if a.shape_pos.y == 0 {
            // 5000 subunits to cover at 150 per quantum: first touch after
            // 33 whole quanta.
            Some(SweepHit { toi: 33, normal: UP, witness: v(0, -5000) })
        } else {
            None
        }
    };
    let ray = |q: RayQuery| -> Option<RayHit> {
        assert_eq!(q.origin, v(0, -5000));
        assert_eq!(q.linvel, v(0, -150));
        // The shape travels 5000/150 quanta along its velocity before its
        // boundary reaches the witness point.
        Some(RayHit { toi_num: 5000, toi_den: 150 })
    };

    adjust_object(&mut obj, &mut pos, &mut vel, 0, 100, 10, 100, &sweep, &ray);

    assert_eq!(pos, v(0, -4990), "resolved y must be the floor plus the padding");
    assert_eq!(obj.touching, vec![UP]);
    assert!(obj.touching_floor());
    // The object's own velocity is not rewritten by contact; the step only
    // records it for the next trapezoidal estimate.
    assert_eq!(vel.linvel, v(0, -100));
    assert_eq!(vel.prev_linvel, v(0, -100));
}

/// The corrected velocity of a floor contact has no vertical component
/// left and keeps the horizontal one.
#[test]
fn floor_contact_velocity_decomposition() {
    let args = GetCollisionCorrectionArgs {
        shape_pos: v(0, 0),
        shape_rot: 0,
        shape_linvel: v(150, -150),
        max_toi: 100,
        padding: 10,
    };
    let sweep =
        |_a: GetCollisionCorrectionArgs| Some(SweepHit { toi: 33, normal: UP, witness: v(5000, -5000) });
    let ray = |_q: RayQuery| Some(RayHit { toi_num: 5000, toi_den: 150 });
    let c = get_collision_correction(args, &sweep, &ray).expect("contact expected");
    assert_eq!(c.hit_pos, v(5000, -5000));
    assert_eq!(c.hit_pos_with_padding, v(5000, -4990));
    assert_eq!(c.new_linvel, v(150, 0), "slide keeps the tangential component only");
    assert_eq!(c.toi, 33);
    assert_eq!(c.normal, UP);
}

/// Diagonal movement into a right-angle corner is resolved in two passes:
/// the touching set holds both normals and the velocity is fully arrested.
#[test]
fn corner_scenario() {
    let mut obj = KinematicObject::new();
    let mut pos = v(0, 0);
    let mut vel = KinematicVelocity::zero();
    vel.hard_assign_x(100);
    vel.hard_assign_y(-100);
    // Effective velocity (150, -150).  Floor top at y=-5000; wall face at
    // x=6000, reached while sliding along the floor.
    let left_wall = Vec2 { x: -NORMAL_SCALE, y: 0 };

    let sweep = move |a: GetCollisionCorrectionArgs| -> Option<SweepHit> {
        if a.shape_pos.y == 0 {
            Some(SweepHit { toi: 33, normal: UP, witness: v(5000, -5000) })
        } else if a.shape_pos == v(5000, -4990) {
            Some(SweepHit { toi: 6, normal: left_wall, witness: v(6000, -4990) })
        } else {
            None
        }
    };
    let ray = move |q: RayQuery| -> Option<RayHit> {
        if q.origin == v(5000, -5000) {
            Some(RayHit { toi_num: 5000, toi_den: 150 })
        } else {
            // 1000 subunits to the wall at 150 per quantum.
            Some(RayHit { toi_num: 1000, toi_den: 150 })
        }
    };

    adjust_object(&mut obj, &mut pos, &mut vel, 0, 100, 10, 100, &sweep, &ray);

    assert_eq!(pos, v(5990, -4990));
    assert_eq!(obj.touching, vec![UP, left_wall], "both surfaces were touched");
    assert!(obj.touching_floor());

    // The second contact removes what was left of the velocity: resolve the
    // wall contact alone and observe the corrected velocity.
    let wall_args = GetCollisionCorrectionArgs {
        shape_pos: v(5000, -4990),
        shape_rot: 0,
        shape_linvel: v(150, 0),
        max_toi: 67,
        padding: 10,
    };
    let c = correction_from_hit(
        wall_args,
        SweepHit { toi: 6, normal: left_wall, witness: v(6000, -4990) },
        RayHit { toi_num: 1000, toi_den: 150 },
    )
    .expect("wall contact expected");
    assert_eq!(c.new_linvel, v(0, 0), "the corner arrests the remaining velocity");
    assert_eq!(c.hit_pos_with_padding, v(5990, -4990));
}

/// With no obstacles in range, the position advances by exact Euler
/// integration of the current velocity and the touching set is cleared.
#[test]
fn free_flight() {
    let mut obj = KinematicObject { touching: vec![UP] };
    let mut pos = v(1000, 2000);
    let mut vel = KinematicVelocity::zero();
    vel.linvel = v(30, -40);
    vel.prev_linvel = v(7, 8);

    let sweep = |_a: GetCollisionCorrectionArgs| -> Option<SweepHit> { None };
    let ray = |_q: RayQuery| -> Option<RayHit> { None };

    adjust_object(&mut obj, &mut pos, &mut vel, 0, 100, 10, 1, &sweep, &ray);

    assert_eq!(pos, v(1000 + 30 * 100, 2000 - 40 * 100), "exact Euler path");
    assert_eq!(obj.touching, Vec::<Vec2>::new());
    assert_eq!(vel.prev_linvel, v(30, -40));
    assert_eq!(vel.linvel, v(30, -40));
}

/// Below the rest threshold nothing moves, both velocities are zeroed, and
/// the oracle is never even consulted, whatever it would answer.
#[test]
fn rest_state_idempotent() {
    let mut obj = KinematicObject { touching: vec![UP] };
    let mut pos = v(123, 456);
    let mut vel = KinematicVelocity::zero();
    vel.linvel = v(3, -3);
    vel.prev_linvel = v(50, 50);

    let calls = Cell::new(0u32);
    let sweep = |_a: GetCollisionCorrectionArgs| -> Option<SweepHit> {
        calls.set(calls.get() + 1);
        Some(SweepHit { toi: 0, normal: UP, witness: v(0, 0) })
    };
    let ray = |_q: RayQuery| -> Option<RayHit> { Some(RayHit { toi_num: 0, toi_den: 1 }) };

    // |(3,-3)| is below a threshold of 100.
    adjust_object(&mut obj, &mut pos, &mut vel, 0, 100, 10, 100, &sweep, &ray);

    assert_eq!(pos, v(123, 456), "an object at rest never changes position");
    assert_eq!(vel.linvel, v(0, 0));
    assert_eq!(vel.prev_linvel, v(0, 0));
    assert_eq!(obj.touching, vec![UP], "the touching set is untouched at rest");
    assert_eq!(calls.get(), 0, "no query is made for an object at rest");
}

/// The loop performs exactly the configured number of passes against
/// adversarial geometry that reports a contact every time.
#[test]
fn pass_bound() {
    let args = GetCollisionCorrectionArgs {
        shape_pos: v(0, 0),
        shape_rot: 0,
        shape_linvel: v(100, -100),
        max_toi: 1000,
        padding: 10,
    };
    let sweeps = Cell::new(0usize);
    let sweep = |_a: GetCollisionCorrectionArgs| -> Option<SweepHit> {
        sweeps.set(sweeps.get() + 1);
        Some(SweepHit { toi: 1, normal: UP, witness: v(0, 0) })
    };
    let ray = |_q: RayQuery| -> Option<RayHit> { Some(RayHit { toi_num: 0, toi_den: 1 }) };

    let (r, _trace) = get_collision_correction_multipass(args, MAX_CORRECTION_ITERS, &sweep, &ray);
    let m = r.expect("always-contacting geometry still resolves");
    assert_eq!(sweeps.get(), MAX_CORRECTION_ITERS, "never more than the configured passes");
    assert_eq!(m.normals.len(), MAX_CORRECTION_ITERS);
    // Every pass padded the stopped shape 10 subunits up along the normal.
    assert_eq!(m.pos, v(0, 80));
}

/// A failed ray reconstruction (penetrating geometry) yields no usable
/// correction: the pass is skipped rather than crashing.
#[test]
fn degenerate_ray_is_skipped() {
    let args = GetCollisionCorrectionArgs {
        shape_pos: v(0, 0),
        shape_rot: 0,
        shape_linvel: v(0, -100),
        max_toi: 100,
        padding: 10,
    };
    let sweep =
        |_a: GetCollisionCorrectionArgs| Some(SweepHit { toi: 0, normal: UP, witness: v(0, 0) });
    let no_ray = |_q: RayQuery| -> Option<RayHit> { None };
    assert!(get_collision_correction(args, &sweep, &no_ray).is_none());

    // An all-degenerate first pass means no correction at all, and the
    // object flies as if free.
    let (r, _trace) = get_collision_correction_multipass(args, MAX_CORRECTION_ITERS, &sweep, &no_ray);
    assert!(r.is_none());
}

/// Oracle replies that fail the acceptance checks are treated as degenerate.
#[test]
fn unacceptable_replies_are_skipped() {
    let args = GetCollisionCorrectionArgs {
        shape_pos: v(0, 0),
        shape_rot: 0,
        shape_linvel: v(0, -100),
        max_toi: 100,
        padding: 10,
    };
    let hit = SweepHit { toi: 0, normal: UP, witness: v(0, 0) };
    let s = RayHit { toi_num: 10, toi_den: 1 };

    // A zero-length denominator.
    assert!(correction_from_hit(args, hit, RayHit { toi_num: 10, toi_den: 0 }).is_none());
    // A backwards ray.
    assert!(correction_from_hit(args, hit, RayHit { toi_num: -1, toi_den: 1 }).is_none());
    // A zero contact normal.
    let zero_normal = SweepHit { normal: v(0, 0), ..hit };
    assert!(correction_from_hit(args, zero_normal, s).is_none());
    // A time of impact outside this pass's budget.
    let late = SweepHit { toi: 101, ..hit };
    assert!(correction_from_hit(args, late, s).is_none());
    let negative = SweepHit { toi: -1, ..hit };
    assert!(correction_from_hit(args, negative, s).is_none());
    // A sane reply is accepted.
    assert!(correction_from_hit(args, hit, s).is_some());
}

/// The trapezoidal estimate weighs the previous velocity in full and the
/// current one by half, truncating toward zero.
#[test]
fn effective_linvel_trapezoid() {
    let mut vel = KinematicVelocity::zero();
    vel.prev_linvel = v(10, -10);
    vel.linvel = v(5, -5);
    assert_eq!(vel.effective_linvel(2), v(10 * 2 + 5, -10 * 2 - 5));
    // Odd products truncate toward zero, for either sign.
    vel.prev_linvel = v(0, 0);
    vel.linvel = v(3, -3);
    assert_eq!(vel.effective_linvel(1), v(1, -1));
    assert_eq!(vel.effective_linvel(0), v(0, 0));
}

/// The hard assignment helpers write both the current and the previous
/// velocity, so the change is effective immediately.
#[test]
fn hard_velocity_helpers() {
    let mut vel = KinematicVelocity::zero();
    vel.hard_assign_x(42);
    assert_eq!(vel.linvel, v(42, 0));
    assert_eq!(vel.prev_linvel, v(42, 0));
    vel.hard_assign_y(-7);
    assert_eq!(vel.linvel, v(42, -7));
    assert_eq!(vel.prev_linvel, v(42, -7));
    vel.hard_add_assign_x(-2);
    assert_eq!(vel.linvel, v(40, -7));
    assert_eq!(vel.prev_linvel, v(40, -7));
    vel.halt_linvel();
    assert_eq!(vel.linvel, v(0, 0));
    assert_eq!(vel.prev_linvel, v(0, 0));
}

/// The floor test accepts normals strictly within forty-five degrees of
/// straight up and nothing else.
#[test]
fn touching_floor_cone() {
    let floor = |n: Vec2| KinematicObject { touching: vec![n] }.touching_floor();
    assert!(floor(v(0, 1)));
    assert!(floor(v(1, 2)));
    assert!(floor(v(-1, 2)));
    assert!(!floor(v(1, 1)), "exactly forty-five degrees is out");
    assert!(!floor(v(-1, 1)));
    assert!(!floor(v(0, -1)));
    assert!(!floor(v(1, 0)));
    assert!(!floor(v(0, 0)));
    assert!(!KinematicObject::new().touching_floor());
    assert!(KinematicObject { touching: vec![v(1, 0), v(0, 1)] }.touching_floor());
}
