use bevy_rapier2d_f64::physics_transform::PhysicsTransform;
use bevy_rapier2d_f64::solver_bodies::{physics_transform_user_change_for_body, writeback_plan_for_body};
use bevy_rapier2d_f64::systems::{ContextConfig, PoseWrite, WritebackPlan};
use bevy_rapier2d_f64::tracking::{body_key, LastPhysicsTransforms};
use rapier2d_f64::dynamics::{RigidBodyBuilder, RigidBodySet};

fn pose(x: f64, y: f64, r: f64) -> PhysicsTransform {
    PhysicsTransform::from_bits(x.to_bits(), y.to_bits(), r.to_bits())
}

fn config() -> ContextConfig {
    ContextConfig {
        force_update_from_transform_changes: false,
        routes_physics_transform: true,
        physics_pipeline_active: true,
    }
}

#[test]
fn user_change_follows_the_solver_body_kind() {
    let mut bodies = RigidBodySet::new();
    let dynamic = bodies.insert(RigidBodyBuilder::dynamic().build()).into_raw_parts();
    let kinematic = bodies.insert(RigidBodyBuilder::kinematic_position_based().build()).into_raw_parts();
    let velocity = bodies.insert(RigidBodyBuilder::kinematic_velocity_based().build()).into_raw_parts();
    let fixed = bodies.insert(RigidBodyBuilder::fixed().build()).into_raw_parts();
    let mut last = LastPhysicsTransforms::new();
    let p = pose(1.0, 2.0, 0.25);

    let out = physics_transform_user_change_for_body(&mut last, &bodies, Some(config()), dynamic.0, dynamic.1, p, false);
    assert!(matches!(out.pose_write, PoseWrite::SetPosition(q) if q == p));
    let out = physics_transform_user_change_for_body(&mut last, &bodies, Some(config()), kinematic.0, kinematic.1, p, false);
    assert!(matches!(out.pose_write, PoseWrite::SetNextKinematicPosition(q) if q == p));
    let out = physics_transform_user_change_for_body(&mut last, &bodies, Some(config()), velocity.0, velocity.1, p, false);
    assert!(matches!(out.pose_write, PoseWrite::SetPosition(_)));
    let out = physics_transform_user_change_for_body(&mut last, &bodies, Some(config()), fixed.0, fixed.1, p, false);
    assert!(matches!(out.pose_write, PoseWrite::SetPosition(_)));
    assert_eq!(last.len(), 4);
    assert!(last.get(body_key(kinematic.0, kinematic.1)).unwrap() == p);
}

#[test]
fn user_change_of_a_body_the_solver_lacks_writes_nothing() {
    let mut bodies = RigidBodySet::new();
    let present = bodies.insert(RigidBodyBuilder::dynamic().build()).into_raw_parts();
    let mut last = LastPhysicsTransforms::new();
    // same index, another generation: the solver does not hold that body
    let out = physics_transform_user_change_for_body(&mut last, &bodies, Some(config()), present.0, present.1 + 1, pose(1.0, 0.0, 0.0), true);
    assert!(out.reset_interpolation);
    assert!(matches!(out.pose_write, PoseWrite::Keep));
    assert_eq!(last.len(), 0);
}

#[test]
fn writeback_plan_skips_bodies_the_solver_lacks() {
    let mut bodies = RigidBodySet::new();
    let present = bodies.insert(RigidBodyBuilder::dynamic().build()).into_raw_parts();
    assert!(matches!(
        writeback_plan_for_body(&bodies, config(), present.0, present.1, false, false, false),
        WritebackPlan::Write { fill_interpolation_end: false, interpolate: false }
    ));
    assert!(matches!(
        writeback_plan_for_body(&bodies, config(), present.0 + 1, present.1, false, false, false),
        WritebackPlan::Skip
    ));
}
