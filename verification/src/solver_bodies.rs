//! The pose-sync decisions of one body, taken against the solver's rigid-body set.
use crate::physics_transform::PhysicsTransform;
use crate::systems::{
    physics_transform_user_change, user_change_outcome, user_change_record, writeback_plan,
    writeback_plan_spec, ContextConfig, RigidBodyType, UserChangeOutcome, WritebackPlan,
};
use crate::tracking::{body_key, body_key_spec, LastPhysicsTransforms};
use rapier2d_f64::dynamics::{RigidBodyHandle, RigidBodySet};
use vstd::prelude::*;

verus! {

#[verifier::external_type_specification]
#[verifier::external_body]
pub struct ExRigidBodySet(RigidBodySet);

/// The kind of every rigid body that a solver-side set holds, by body key
/// (see `body_key_spec`).
pub uninterp spec fn rigid_body_types(bodies: RigidBodySet) -> Map<u64, RigidBodyType>;

/// Calls `RigidBodySet::get` with the handle made by `RigidBodyHandle::from_raw_parts(index,
/// generation)`, and, when the set holds that body, `RigidBody::body_type` on it. Claimed: the
/// result is the kind that the set holds under the handle's key, `None` when it holds no such body.
#[verifier::external_body]
fn rigid_body_type(bodies: &RigidBodySet, index: u32, generation: u32) -> (r: Option<RigidBodyType>)
    ensures
        r == rigid_body_types(*bodies).get(body_key_spec(index, generation) as u64),
{
    match bodies.get(RigidBodyHandle::from_raw_parts(index, generation)) {
        None => None,
        Some(rb) => match rb.body_type() {
            rapier2d_f64::dynamics::RigidBodyType::Dynamic => Some(RigidBodyType::Dynamic),
            rapier2d_f64::dynamics::RigidBodyType::Fixed => Some(RigidBodyType::Fixed),
            rapier2d_f64::dynamics::RigidBodyType::KinematicPositionBased => Some(
                RigidBodyType::KinematicPositionBased,
            ),
            rapier2d_f64::dynamics::RigidBodyType::KinematicVelocityBased => Some(
                RigidBodyType::KinematicVelocityBased,
            ),
            rapier2d_f64::dynamics::RigidBodyType::SoftFrame => Some(RigidBodyType::SoftFrame),
        },
    }
}

/// The user-side pose change of the body with handle parts (`index`, `generation`), decided
/// against the kind under which `bodies` holds that body (if it holds it).
pub fn physics_transform_user_change_for_body(
    last: &mut LastPhysicsTransforms,
    bodies: &RigidBodySet,
    config: Option<ContextConfig>,
    index: u32,
    generation: u32,
    pt: PhysicsTransform,
    has_interpolation: bool,
) -> (r: UserChangeOutcome)
    ensures
        ({
            let key = body_key_spec(index, generation) as u64;
            let body = rigid_body_types(*bodies).get(key);
            &&& r == user_change_outcome(config, old(last)@, key, pt, has_interpolation, body)
            &&& final(last)@ == user_change_record(config, old(last)@, key, pt, body)
        }),
{
    let key = body_key(index, generation);
    let body = rigid_body_type(bodies, index, generation);
    physics_transform_user_change(last, config, key, pt, has_interpolation, body)
}

/// The write-back plan of the body with handle parts (`index`, `generation`): `bodies`
/// decides whether the solver still has the body.
pub fn writeback_plan_for_body(
    bodies: &RigidBodySet,
    config: ContextConfig,
    index: u32,
    generation: u32,
    interpolated_timestep: bool,
    has_interpolation: bool,
    interpolation_end_set: bool,
) -> (r: WritebackPlan)
    ensures
        r == writeback_plan_spec(
            config,
            rigid_body_types(*bodies).contains_key(body_key_spec(index, generation) as u64),
            interpolated_timestep,
            has_interpolation,
            interpolation_end_set,
        ),
{
    let body = rigid_body_type(bodies, index, generation);
    writeback_plan(
        config,
        body.is_some(),
        interpolated_timestep,
        has_interpolation,
        interpolation_end_set,
    )
}

} // verus!
