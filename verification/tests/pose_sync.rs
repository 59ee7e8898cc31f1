use bevy_rapier2d_f64::float_bits::F64Bits;
use bevy_rapier2d_f64::physics_transform::PhysicsTransform;
use bevy_rapier2d_f64::systems::{
    physics_transform_user_change, writeback_commit, writeback_plan, ContextConfig, PoseWrite,
    RigidBodyType, WritebackPlan,
};
use bevy_rapier2d_f64::tracking::{body_key, physics_transform_changed, LastPhysicsTransforms};

fn pose(x: f64, y: f64, r: f64) -> PhysicsTransform {
    PhysicsTransform::from_bits(x.to_bits(), y.to_bits(), r.to_bits())
}

fn routed(force: bool) -> ContextConfig {
    ContextConfig {
        force_update_from_transform_changes: force,
        routes_physics_transform: true,
        physics_pipeline_active: true,
    }
}

#[test]
fn float_eq_matches_f64_comparison() {
    let samples = [0.0, -0.0, 1.5, -1.5, f64::NAN, f64::INFINITY, f64::NEG_INFINITY, 5_000_000.0];
    for a in samples {
        for b in samples {
            let fa = F64Bits::from_bits(a.to_bits());
            let fb = F64Bits::from_bits(b.to_bits());
            assert_eq!(fa.float_eq(&fb), a == b, "{a} == {b}");
        }
    }
}

#[test]
fn nan_and_zero_classification() {
    assert!(F64Bits::from_bits(f64::NAN.to_bits()).is_nan());
    assert!(!F64Bits::from_bits(f64::INFINITY.to_bits()).is_nan());
    assert!(F64Bits::from_bits((-0.0f64).to_bits()).is_zero());
    assert!(!F64Bits::from_bits(f64::MIN_POSITIVE.to_bits()).is_zero());
    assert_eq!(F64Bits::zero().bits, 0.0f64.to_bits());
}

#[test]
fn pose_equality_is_componentwise_float_equality() {
    assert!(pose(1.0, 2.0, 0.5) == pose(1.0, 2.0, 0.5));
    assert!(pose(0.0, 2.0, 0.0) == pose(-0.0, 2.0, -0.0));
    assert!(pose(1.0, 2.0, 0.5) != pose(1.0, 2.0, 0.25));
    assert!(pose(1.0, 2.0, 0.5) != pose(1.0, 3.0, 0.5));
    assert!(pose(f64::NAN, 2.0, 0.5) != pose(f64::NAN, 2.0, 0.5));
    let d = PhysicsTransform::default();
    assert!(d == pose(0.0, 0.0, 0.0));
    assert_eq!(d.rotation.bits, 0);
}

#[test]
fn body_key_packs_generation_and_index() {
    assert_eq!(body_key(7, 0), 7);
    assert_eq!(body_key(0, 1), 1u64 << 32);
    assert_eq!(body_key(3, 2), (2u64 << 32) + 3);
    assert_eq!(body_key(u32::MAX, u32::MAX), u64::MAX);
    assert_ne!(body_key(1, 2), body_key(2, 1));
}

#[test]
fn tracker_records_and_replaces() {
    let mut last = LastPhysicsTransforms::new();
    assert_eq!(last.len(), 0);
    assert!(last.get(5).is_none());
    last.insert(5, pose(1.0, 1.0, 0.0));
    last.insert(6, pose(2.0, 2.0, 0.0));
    last.insert(5, pose(3.0, 3.0, 0.0));
    assert_eq!(last.len(), 2);
    assert!(last.get(5).unwrap() == pose(3.0, 3.0, 0.0));
    assert!(last.get(6).unwrap() == pose(2.0, 2.0, 0.0));
}

#[test]
fn change_test_cases() {
    let mut last = LastPhysicsTransforms::new();
    let p = pose(1.0, 2.0, 0.5);
    // no record: changed
    assert!(physics_transform_changed(false, &last, 1, &p));
    last.insert(1, p);
    // same pose recorded: unchanged, unless forced
    assert!(!physics_transform_changed(false, &last, 1, &p));
    assert!(physics_transform_changed(true, &last, 1, &p));
    // different pose: changed
    assert!(physics_transform_changed(false, &last, 1, &pose(1.0, 2.0, 0.75)));
    // a pose with a NaN never matches
    let n = pose(f64::NAN, 0.0, 0.0);
    last.insert(2, n);
    assert!(physics_transform_changed(false, &last, 2, &n));
}

#[test]
fn user_change_unrouted_or_missing_config_does_nothing() {
    let mut last = LastPhysicsTransforms::new();
    let p = pose(1.0, 2.0, 0.5);
    let off = ContextConfig {
        force_update_from_transform_changes: true,
        routes_physics_transform: false,
        physics_pipeline_active: true,
    };
    let out = physics_transform_user_change(&mut last, Some(off), 1, p, true, Some(RigidBodyType::Dynamic));
    assert!(!out.reset_interpolation);
    assert!(matches!(out.pose_write, PoseWrite::Keep));
    let out = physics_transform_user_change(&mut last, None, 1, p, true, Some(RigidBodyType::Dynamic));
    assert!(!out.reset_interpolation);
    assert!(matches!(out.pose_write, PoseWrite::Keep));
    assert_eq!(last.len(), 0);
}

#[test]
fn user_change_teleports_dynamic_and_targets_kinematic() {
    let mut last = LastPhysicsTransforms::new();
    let p = pose(1.0, 2.0, 0.5);
    let out = physics_transform_user_change(&mut last, Some(routed(false)), 1, p, true, Some(RigidBodyType::Dynamic));
    assert!(out.reset_interpolation);
    match out.pose_write {
        PoseWrite::SetPosition(q) => assert!(q == p),
        _ => panic!("expected a teleport"),
    }
    assert!(last.get(1).unwrap() == p);

    let q = pose(4.0, 5.0, 0.0);
    let out = physics_transform_user_change(&mut last, Some(routed(false)), 2, q, false, Some(RigidBodyType::KinematicPositionBased));
    assert!(!out.reset_interpolation);
    match out.pose_write {
        PoseWrite::SetNextKinematicPosition(r) => assert!(r == q),
        _ => panic!("expected a kinematic target"),
    }
    let out = physics_transform_user_change(&mut last, Some(routed(false)), 3, q, false, Some(RigidBodyType::KinematicVelocityBased));
    assert!(matches!(out.pose_write, PoseWrite::SetPosition(_)));
    let out = physics_transform_user_change(&mut last, Some(routed(false)), 4, q, false, Some(RigidBodyType::Fixed));
    assert!(matches!(out.pose_write, PoseWrite::SetPosition(_)));
    assert_eq!(last.len(), 4);
}

#[test]
fn user_change_without_solver_body_resets_interpolation_only() {
    let mut last = LastPhysicsTransforms::new();
    let p = pose(1.0, 2.0, 0.5);
    let out = physics_transform_user_change(&mut last, Some(routed(false)), 1, p, true, None);
    assert!(out.reset_interpolation);
    assert!(matches!(out.pose_write, PoseWrite::Keep));
    assert_eq!(last.len(), 0);
}

#[test]
fn user_change_applied_twice_is_applied_once() {
    let mut last = LastPhysicsTransforms::new();
    let p = pose(1.0, 2.0, 0.5);
    let body = Some(RigidBodyType::Dynamic);
    let first = physics_transform_user_change(&mut last, Some(routed(false)), 1, p, true, body);
    assert!(matches!(first.pose_write, PoseWrite::SetPosition(_)));
    let second = physics_transform_user_change(&mut last, Some(routed(false)), 1, p, true, body);
    assert!(!second.reset_interpolation);
    assert!(matches!(second.pose_write, PoseWrite::Keep));
    // forced: applied again
    let third = physics_transform_user_change(&mut last, Some(routed(true)), 1, p, true, body);
    assert!(third.reset_interpolation);
    assert!(matches!(third.pose_write, PoseWrite::SetPosition(_)));
}

#[test]
fn writeback_plan_cases() {
    let active = routed(false);
    assert!(matches!(writeback_plan(active, false, true, true, false), WritebackPlan::Skip));
    let paused = ContextConfig { physics_pipeline_active: false, ..active };
    assert!(matches!(writeback_plan(paused, true, true, true, false), WritebackPlan::Skip));
    let unrouted = ContextConfig { routes_physics_transform: false, ..active };
    assert!(matches!(writeback_plan(unrouted, true, true, true, false), WritebackPlan::Skip));
    match writeback_plan(active, true, true, true, false) {
        WritebackPlan::Write { fill_interpolation_end, interpolate } => {
            assert!(fill_interpolation_end);
            assert!(interpolate);
        }
        WritebackPlan::Skip => panic!("expected a write-back"),
    }
    match writeback_plan(active, true, true, true, true) {
        WritebackPlan::Write { fill_interpolation_end, interpolate } => {
            assert!(!fill_interpolation_end);
            assert!(interpolate);
        }
        WritebackPlan::Skip => panic!("expected a write-back"),
    }
    match writeback_plan(active, true, false, true, false) {
        WritebackPlan::Write { fill_interpolation_end, interpolate } => {
            assert!(!fill_interpolation_end);
            assert!(!interpolate);
        }
        WritebackPlan::Skip => panic!("expected a write-back"),
    }
}

#[test]
fn writeback_commit_records_and_overwrites_only_on_difference() {
    let mut last = LastPhysicsTransforms::new();
    let body_pose = pose(10.0, 20.0, 0.1);
    let interp = pose(9.5, 19.5, 0.05);
    let out = writeback_commit(&mut last, 1, pose(0.0, 0.0, 0.0), body_pose, Some(interp));
    assert!(out.new_transform == interp);
    assert!(out.overwrite);
    assert!(last.get(1).unwrap() == interp);

    let out = writeback_commit(&mut last, 1, interp, body_pose, None);
    assert!(out.new_transform == body_pose);
    assert!(out.overwrite);

    let out = writeback_commit(&mut last, 1, body_pose, body_pose, None);
    assert!(!out.overwrite);
    assert!(last.get(1).unwrap() == body_pose);
}

#[test]
fn written_back_pose_is_not_pushed_back() {
    let mut last = LastPhysicsTransforms::new();
    let simulated = pose(5_000_000.0, -3_141.59, 0.0);
    let out = writeback_commit(&mut last, 7, PhysicsTransform::default(), simulated, None);
    assert!(out.overwrite);
    // The stored pose now equals the simulated one; the user-side system sees it as unchanged.
    let user = physics_transform_user_change(
        &mut last,
        Some(routed(false)),
        7,
        out.new_transform,
        true,
        Some(RigidBodyType::Dynamic),
    );
    assert!(!user.reset_interpolation);
    assert!(matches!(user.pose_write, PoseWrite::Keep));
}
