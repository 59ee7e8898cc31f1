//! Per-body decisions of the two pose-sync systems: pushing user-authored poses into the
//! solver, and writing simulated poses back.
use crate::physics_transform::{same_pose, PhysicsTransform};
use crate::tracking::{physics_transform_changed, transform_changed, LastPhysicsTransforms};
use vstd::prelude::*;

verus! {

/// The settings of a simulation context that the pose-sync systems read.
#[derive(Clone, Copy, Debug)]
pub struct ContextConfig {
    /// Push poses to the solver even when they equal the last recorded one.
    pub force_update_from_transform_changes: bool,
    /// Poses of this context are routed through `PhysicsTransform`.
    pub routes_physics_transform: bool,
    /// The physics pipeline steps for this context.
    pub physics_pipeline_active: bool,
}

/// The kind of a rigid body, as the solver classifies it.
#[derive(Clone, Copy, Debug)]
pub enum RigidBodyType {
    Dynamic,
    Fixed,
    KinematicPositionBased,
    KinematicVelocityBased,
    /// The proxy body of a soft-body cluster.
    SoftFrame,
}

/// What to do with the solver-side body.
#[derive(Clone, Copy, Debug)]
pub enum PoseWrite {
    /// Leave the body as it is.
    Keep,
    /// Set the next kinematic target of a position-based kinematic body.
    SetNextKinematicPosition(PhysicsTransform),
    /// Teleport the body to the pose, waking it up.
    SetPosition(PhysicsTransform),
}

/// The actions that follow from one user-authored pose change.
#[derive(Clone, Copy, Debug)]
pub struct UserChangeOutcome {
    /// Clear both ends of the body's transform interpolation.
    pub reset_interpolation: bool,
    /// What to write into the solver.
    pub pose_write: PoseWrite,
}

/// The outcome that changes nothing.
pub open spec fn no_user_change() -> UserChangeOutcome {
    UserChangeOutcome { reset_interpolation: false, pose_write: PoseWrite::Keep }
}

/// The context routes poses through `PhysicsTransform` (a missing configuration does not).
pub open spec fn routed(config: Option<ContextConfig>) -> bool {
    config matches Some(cfg) && cfg.routes_physics_transform
}

/// The change test of a routed context.
pub open spec fn user_pose_changed(
    config: Option<ContextConfig>,
    last: Map<u64, PhysicsTransform>,
    key: u64,
    pt: PhysicsTransform,
) -> bool {
    routed(config) && transform_changed(
        config->0.force_update_from_transform_changes,
        last,
        key,
        pt,
    )
}

/// The actions for a user-authored pose `pt` of body `key`: nothing unless the context is
/// routed and the pose is a change; then the interpolation (if the body has one) is reset,
/// and a body that exists in the solver gets the pose, as its next kinematic target when it
/// is position-based kinematic and by teleport otherwise.
pub open spec fn user_change_outcome(
    config: Option<ContextConfig>,
    last: Map<u64, PhysicsTransform>,
    key: u64,
    pt: PhysicsTransform,
    has_interpolation: bool,
    body: Option<RigidBodyType>,
) -> UserChangeOutcome {
    if user_pose_changed(config, last, key, pt) {
        UserChangeOutcome {
            reset_interpolation: has_interpolation,
            pose_write: match body {
                Some(RigidBodyType::KinematicPositionBased) => PoseWrite::SetNextKinematicPosition(pt),
                Some(_) => PoseWrite::SetPosition(pt),
                None => PoseWrite::Keep,
            },
        }
    } else {
        no_user_change()
    }
}

/// The record after a user-authored pose: `pt` is recorded for `key` exactly when it was
/// written into an existing body.
pub open spec fn user_change_record(
    config: Option<ContextConfig>,
    last: Map<u64, PhysicsTransform>,
    key: u64,
    pt: PhysicsTransform,
    body: Option<RigidBodyType>,
) -> Map<u64, PhysicsTransform> {
    if user_pose_changed(config, last, key, pt) && body is Some {
        last.insert(key, pt)
    } else {
        last
    }
}

/// Decides what a user-authored pose `pt` of body `key` does, and records it when it is
/// handed to the solver. `config` is the body's context configuration, if it has one;
/// `body` is the kind of the solver-side body, if the solver has it.
pub fn physics_transform_user_change(
    last: &mut LastPhysicsTransforms,
    config: Option<ContextConfig>,
    key: u64,
    pt: PhysicsTransform,
    has_interpolation: bool,
    body: Option<RigidBodyType>,
) -> (r: UserChangeOutcome)
    ensures
        r == user_change_outcome(config, old(last)@, key, pt, has_interpolation, body),
        final(last)@ == user_change_record(config, old(last)@, key, pt, body),
{
    let cfg = match config {
        Some(cfg) => cfg,
        None => {
            return UserChangeOutcome { reset_interpolation: false, pose_write: PoseWrite::Keep };
        },
    };
    if !cfg.routes_physics_transform {
        return UserChangeOutcome { reset_interpolation: false, pose_write: PoseWrite::Keep };
    }
    let changed = physics_transform_changed(
        cfg.force_update_from_transform_changes,
        last,
        key,
        &pt,
    );
    let reset_interpolation = has_interpolation && changed;
    let pose_write = match body {
        Some(kind) => {
            if changed {
                last.insert(key, pt);
                match kind {
                    RigidBodyType::KinematicPositionBased => PoseWrite::SetNextKinematicPosition(pt),
                    _ => PoseWrite::SetPosition(pt),
                }
            } else {
                PoseWrite::Keep
            }
        },
        None => PoseWrite::Keep,
    };
    UserChangeOutcome { reset_interpolation, pose_write }
}


/// How the write-back of one simulated body proceeds.
#[derive(Clone, Copy, Debug)]
pub enum WritebackPlan {
    /// The body is left alone.
    Skip,
    /// The body's pose is read back.
    Write {
        /// Store the body's current solver pose as the end of its interpolation first.
        fill_interpolation_end: bool,
        /// Try to interpolate between the interpolation's ends before reading back.
        interpolate: bool,
    },
}

/// Write-back happens for a body that the solver has, in an active context routed through
/// `PhysicsTransform`; with an interpolated timestep and an interpolation component, the
/// interpolation's end is filled from the solver pose when missing, and interpolation is tried.
pub open spec fn writeback_plan_spec(
    config: ContextConfig,
    body_exists: bool,
    interpolated_timestep: bool,
    has_interpolation: bool,
    interpolation_end_set: bool,
) -> WritebackPlan {
    if !config.physics_pipeline_active || !config.routes_physics_transform || !body_exists {
        WritebackPlan::Skip
    } else {
        WritebackPlan::Write {
            fill_interpolation_end: interpolated_timestep && has_interpolation
                && !interpolation_end_set,
            interpolate: interpolated_timestep && has_interpolation,
        }
    }
}

/// Decides whether and how the simulated pose of one body is written back.
pub fn writeback_plan(
    config: ContextConfig,
    body_exists: bool,
    interpolated_timestep: bool,
    has_interpolation: bool,
    interpolation_end_set: bool,
) -> (r: WritebackPlan)
    ensures
        r == writeback_plan_spec(
            config,
            body_exists,
            interpolated_timestep,
            has_interpolation,
            interpolation_end_set,
        ),
{
    if !config.physics_pipeline_active || !config.routes_physics_transform || !body_exists {
        return WritebackPlan::Skip;
    }
    let interpolate = interpolated_timestep && has_interpolation;
    WritebackPlan::Write {
        fill_interpolation_end: interpolate && !interpolation_end_set,
        interpolate,
    }
}

/// The result of reading back one simulated pose.
#[derive(Clone, Copy, Debug)]
pub struct WritebackOutcome {
    /// The pose read back.
    pub new_transform: PhysicsTransform,
    /// The stored pose differs from it and must be overwritten.
    pub overwrite: bool,
}

/// The pose read back: the interpolated one when interpolation gave one, else the solver's.
pub open spec fn read_back_pose(
    body_pose: PhysicsTransform,
    interpolated: Option<PhysicsTransform>,
) -> PhysicsTransform {
    match interpolated {
        Some(p) => p,
        None => body_pose,
    }
}

/// Completes the write-back of body `key`, whose stored pose is `current`: picks the pose
/// read back, says whether `current` must be overwritten (only when it differs), and
/// records the read-back pose for the body in every case.
pub fn writeback_commit(
    last: &mut LastPhysicsTransforms,
    key: u64,
    current: PhysicsTransform,
    body_pose: PhysicsTransform,
    interpolated: Option<PhysicsTransform>,
) -> (r: WritebackOutcome)
    ensures
        r.new_transform == read_back_pose(body_pose, interpolated),
        r.overwrite == !same_pose(current, r.new_transform),
        final(last)@ == old(last)@.insert(key, r.new_transform),
{
    let new_transform = match interpolated {
        Some(p) => p,
        None => body_pose,
    };
    let overwrite = current != new_transform;
    last.insert(key, new_transform);
    WritebackOutcome { new_transform, overwrite }
}

} // verus!
