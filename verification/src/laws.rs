//! Properties that relate the pose-sync decisions across calls.
use crate::physics_transform::{has_nan, same_pose, PhysicsTransform};
use crate::float_bits::float_eq_bits;
use crate::systems::{
    no_user_change, read_back_pose, routed, user_change_outcome, user_change_record,
    user_pose_changed, writeback_plan_spec, ContextConfig, PoseWrite, RigidBodyType,
    UserChangeOutcome, WritebackPlan,
};
use crate::tracking::{body_key_spec, transform_changed};
use vstd::prelude::*;

verus! {

/// A pose read back from the solver is not pushed to the solver again: once write-back has
/// recorded `written` for a body, a user-side pose equal to it (with no forced update)
/// resets nothing, writes nothing and leaves the record as it is.
pub proof fn lemma_written_back_pose_is_not_echoed(
    last: Map<u64, PhysicsTransform>,
    key: u64,
    written: PhysicsTransform,
    pt: PhysicsTransform,
    config: ContextConfig,
    has_interpolation: bool,
    body: Option<RigidBodyType>,
)
    requires
        !config.force_update_from_transform_changes,
        same_pose(written, pt),
    ensures
        user_change_outcome(Some(config), last.insert(key, written), key, pt, has_interpolation, body)
            == no_user_change(),
        user_change_record(Some(config), last.insert(key, written), key, pt, body) == last.insert(
            key,
            written,
        ),
{
    assert(!transform_changed(false, last.insert(key, written), key, pt));
}

/// Handing the same pose twice is handing it once: after a pose without NaN components has
/// been applied to an existing body, applying it again (with no forced update) does nothing.
pub proof fn lemma_user_change_idempotent(
    last: Map<u64, PhysicsTransform>,
    key: u64,
    pt: PhysicsTransform,
    config: ContextConfig,
    has_interpolation: bool,
    body: Option<RigidBodyType>,
)
    requires
        !config.force_update_from_transform_changes,
        !has_nan(pt),
        body is Some,
    ensures
        ({
            let after = user_change_record(Some(config), last, key, pt, body);
            &&& user_change_outcome(Some(config), after, key, pt, has_interpolation, body)
                == no_user_change()
            &&& user_change_record(Some(config), after, key, pt, body) == after
        }),
{
    let after = user_change_record(Some(config), last, key, pt, body);
    assert(same_pose(pt, pt));
    if user_pose_changed(Some(config), last, key, pt) {
        assert(after == last.insert(key, pt));
        assert(!transform_changed(false, after, key, pt));
    }
}

/// A forced update pushes every pose of a routed context, recorded or not.
pub proof fn lemma_forced_update_always_changes(
    last: Map<u64, PhysicsTransform>,
    key: u64,
    pt: PhysicsTransform,
    config: ContextConfig,
)
    requires
        config.force_update_from_transform_changes,
        config.routes_physics_transform,
    ensures
        user_pose_changed(Some(config), last, key, pt),
{
}

/// A pose with a NaN component never matches the record, so it is pushed every time.
pub proof fn lemma_nan_pose_always_changes(
    last: Map<u64, PhysicsTransform>,
    key: u64,
    pt: PhysicsTransform,
    config: ContextConfig,
)
    requires
        config.routes_physics_transform,
        has_nan(pt),
    ensures
        user_pose_changed(Some(config), last, key, pt),
{
}

/// A context that is missing or not routed through `PhysicsTransform` is untouched.
pub proof fn lemma_unrouted_context_untouched(
    last: Map<u64, PhysicsTransform>,
    key: u64,
    pt: PhysicsTransform,
    config: Option<ContextConfig>,
    has_interpolation: bool,
    body: Option<RigidBodyType>,
)
    requires
        !routed(config),
    ensures
        user_change_outcome(config, last, key, pt, has_interpolation, body) == no_user_change(),
        user_change_record(config, last, key, pt, body) == last,
{
}

/// A user-side change of one body leaves the record of every other body as it was.
pub proof fn lemma_other_bodies_unaffected(
    last: Map<u64, PhysicsTransform>,
    key: u64,
    other: u64,
    pt: PhysicsTransform,
    config: Option<ContextConfig>,
    body: Option<RigidBodyType>,
)
    requires
        other != key,
    ensures
        user_change_record(config, last, key, pt, body).contains_key(other) == last.contains_key(
            other,
        ),
        last.contains_key(other) ==> user_change_record(config, last, key, pt, body)[other]
            == last[other],
{
}

/// Write-back settles: once a read-back pose without NaN components has been stored, reading
/// the same pose back again does not overwrite the stored pose.
pub proof fn lemma_writeback_settles(
    body_pose: PhysicsTransform,
    interpolated: Option<PhysicsTransform>,
)
    requires
        !has_nan(read_back_pose(body_pose, interpolated)),
    ensures
        same_pose(read_back_pose(body_pose, interpolated), read_back_pose(body_pose, interpolated)),
{
}


/// `f64` equality on bit patterns: equal values have equal patterns, except the two zeros
/// (patterns whose bits other than the sign are all clear).
pub proof fn lemma_float_eq_only_equal_patterns_or_zeros(a: u64, b: u64)
    ensures
        float_eq_bits(a, b) ==> a == b || (a & 0x7fff_ffff_ffff_ffffu64 == 0
            && b & 0x7fff_ffff_ffff_ffffu64 == 0),
{
}

/// `f64` equality on bit patterns: every value that is not a NaN (magnitude at most that of
/// infinity) equals itself, and a NaN equals nothing.
pub proof fn lemma_float_eq_reflexive_exactly_off_nan(a: u64, b: u64)
    ensures
        a & 0x7fff_ffff_ffff_ffffu64 <= 0x7ff0_0000_0000_0000u64 ==> float_eq_bits(a, a),
        a & 0x7fff_ffff_ffff_ffffu64 > 0x7ff0_0000_0000_0000u64 ==> !float_eq_bits(a, b)
            && !float_eq_bits(b, a),
{
}

/// `f64` equality on bit patterns: any two zeros (`+0.0`, `-0.0`) are equal.
pub proof fn lemma_float_eq_zeros(a: u64, b: u64)
    ensures
        a & 0x7fff_ffff_ffff_ffffu64 == 0 && b & 0x7fff_ffff_ffff_ffffu64 == 0 ==> float_eq_bits(
            a,
            b,
        ),
{
}

/// Two poses are equal exactly when their `x`, their `y` and their rotations are each equal
/// as `f64` values.
pub proof fn lemma_same_pose_is_componentwise(a: PhysicsTransform, b: PhysicsTransform)
    ensures
        same_pose(a, b) <==> (float_eq_bits(a.translation.x.bits, b.translation.x.bits)
            && float_eq_bits(a.translation.y.bits, b.translation.y.bits) && float_eq_bits(
            a.rotation.bits,
            b.rotation.bits,
        )),
{
}

/// The change test: a forced update is always a change, a body with no recorded pose is
/// always a change, and otherwise a pose is a change exactly when it differs from the
/// recorded one in some component (as `f64` values).
pub proof fn lemma_change_test(
    force: bool,
    last: Map<u64, PhysicsTransform>,
    key: u64,
    pt: PhysicsTransform,
)
    ensures
        force ==> transform_changed(force, last, key, pt),
        !last.contains_key(key) ==> transform_changed(force, last, key, pt),
        last.contains_key(key) && !force ==> (transform_changed(force, last, key, pt) <==> !(
        float_eq_bits(last[key].translation.x.bits, pt.translation.x.bits) && float_eq_bits(
            last[key].translation.y.bits,
            pt.translation.y.bits,
        ) && float_eq_bits(last[key].rotation.bits, pt.rotation.bits))),
{
}

/// A user pose is handled exactly when the context exists, is routed through
/// `PhysicsTransform`, and the pose is a change under that context's forcing flag.
pub proof fn lemma_user_pose_changed_in_routed_context(
    config: Option<ContextConfig>,
    last: Map<u64, PhysicsTransform>,
    key: u64,
    pt: PhysicsTransform,
)
    ensures
        user_pose_changed(config, last, key, pt) <==> (config matches Some(c)
            && c.routes_physics_transform && transform_changed(
            c.force_update_from_transform_changes,
            last,
            key,
            pt,
        )),
{
}

/// What a user-side change does: when the pose is a change, the interpolation is reset exactly
/// when the body has one, whatever its kind, and a body held by the solver receives `pt` (as its
/// next kinematic target when position-based kinematic, by teleport otherwise) and `pt` is
/// recorded; a body the solver lacks receives nothing and nothing is recorded. When the pose is
/// not a change, nothing happens at all.
pub proof fn lemma_user_change_actions(
    config: Option<ContextConfig>,
    last: Map<u64, PhysicsTransform>,
    key: u64,
    pt: PhysicsTransform,
    has_interpolation: bool,
    body: Option<RigidBodyType>,
)
    ensures
        ({
            let out = user_change_outcome(config, last, key, pt, has_interpolation, body);
            let rec = user_change_record(config, last, key, pt, body);
            let changed = user_pose_changed(config, last, key, pt);
            &&& changed ==> out.reset_interpolation == has_interpolation
            &&& changed && body == Some(RigidBodyType::KinematicPositionBased)
                ==> out.pose_write == PoseWrite::SetNextKinematicPosition(pt)
            &&& changed && body is Some && body != Some(RigidBodyType::KinematicPositionBased)
                ==> out.pose_write == PoseWrite::SetPosition(pt)
            &&& changed && body is Some ==> rec == last.insert(key, pt)
            &&& body is None ==> out.pose_write == PoseWrite::Keep && rec == last
            &&& !changed ==> !out.reset_interpolation && out.pose_write == PoseWrite::Keep
                && rec == last
        }),
{
}

/// The write-back plan: a body the solver holds, in an active context routed through
/// `PhysicsTransform`, is always written back, whatever the timestep mode and its interpolation;
/// the interpolation is tried exactly with an interpolated timestep and an interpolation
/// component, and its end is filled first exactly when it is tried and the end is missing. Any
/// other body is skipped.
pub proof fn lemma_writeback_plan(
    config: ContextConfig,
    body_exists: bool,
    ts: bool,
    hi: bool,
    end_set: bool,
)
    ensures
        config.physics_pipeline_active && config.routes_physics_transform && body_exists
            ==> writeback_plan_spec(config, body_exists, ts, hi, end_set) == (WritebackPlan::Write {
            fill_interpolation_end: ts && hi && !end_set,
            interpolate: ts && hi,
        }),
        !(config.physics_pipeline_active && config.routes_physics_transform && body_exists)
            ==> writeback_plan_spec(config, body_exists, ts, hi, end_set) == WritebackPlan::Skip,
{
}

/// The pose read back is the interpolated one when interpolation gave one, else the solver's.
pub proof fn lemma_read_back_pose(body_pose: PhysicsTransform, p: PhysicsTransform)
    ensures
        read_back_pose(body_pose, Some(p)) == p,
        read_back_pose(body_pose, None) == body_pose,
{
}

/// A body key keeps the arena index in its low 32 bits and the generation above them.
pub proof fn lemma_body_key_parts(index: u32, generation: u32)
    ensures
        body_key_spec(index, generation) % 0x1_0000_0000 == index,
        body_key_spec(index, generation) / 0x1_0000_0000 == generation,
        0 <= body_key_spec(index, generation) < 0x1_0000_0000_0000_0000,
{
}

} // verus!
