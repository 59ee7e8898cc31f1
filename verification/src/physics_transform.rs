//! World-space rigid-body pose in double precision, held as bit patterns.
use crate::float_bits::{float_eq_bits, is_nan_bits, F64Bits};
use vstd::prelude::*;

verus! {

/// A pair of double-precision coordinates (`x`, `y`).
#[derive(Clone, Copy, Debug)]
pub struct DVec2Bits {
    pub x: F64Bits,
    pub y: F64Bits,
}

/// World-space rigid-body pose in double precision, independent of the render transform:
/// translation (`x`, `y`) and rotation angle in radians.
#[derive(Clone, Copy, Debug)]
pub struct PhysicsTransform {
    pub translation: DVec2Bits,
    pub rotation: F64Bits,
}

/// Two poses compare equal as the component-wise `f64` comparison of their
/// translations and rotations decides.
pub open spec fn same_pose(a: PhysicsTransform, b: PhysicsTransform) -> bool {
    &&& float_eq_bits(a.translation.x.bits, b.translation.x.bits)
    &&& float_eq_bits(a.translation.y.bits, b.translation.y.bits)
    &&& float_eq_bits(a.rotation.bits, b.rotation.bits)
}

/// Some component of the pose is a NaN.
pub open spec fn has_nan(p: PhysicsTransform) -> bool {
    ||| is_nan_bits(p.translation.x.bits)
    ||| is_nan_bits(p.translation.y.bits)
    ||| is_nan_bits(p.rotation.bits)
}

impl PhysicsTransform {
    /// Builds a pose from the bit patterns of its translation and rotation.
    pub fn from_bits(x: u64, y: u64, rotation: u64) -> (r: PhysicsTransform)
        ensures
            r.translation.x.bits == x,
            r.translation.y.bits == y,
            r.rotation.bits == rotation,
    {
        PhysicsTransform {
            translation: DVec2Bits { x: F64Bits::from_bits(x), y: F64Bits::from_bits(y) },
            rotation: F64Bits::from_bits(rotation),
        }
    }
}

impl PartialEq for PhysicsTransform {
    fn eq(&self, other: &Self) -> (r: bool) {
        self.translation.x.float_eq(&other.translation.x)
            && self.translation.y.float_eq(&other.translation.y)
            && self.rotation.float_eq(&other.rotation)
    }
}

impl vstd::std_specs::cmp::PartialEqSpecImpl for PhysicsTransform {
    open spec fn obeys_eq_spec() -> bool {
        true
    }

    open spec fn eq_spec(&self, other: &Self) -> bool {
        same_pose(*self, *other)
    }
}

impl Default for PhysicsTransform {
    /// The pose at the origin with zero rotation (all components `+0.0`).
    fn default() -> (r: Self)
        ensures
            r.translation.x.bits == 0,
            r.translation.y.bits == 0,
            r.rotation.bits == 0,
    {
        PhysicsTransform {
            translation: DVec2Bits { x: F64Bits::zero(), y: F64Bits::zero() },
            rotation: F64Bits::zero(),
        }
    }
}

/// Pose equality is symmetric.
pub proof fn lemma_same_pose_symmetric(a: PhysicsTransform, b: PhysicsTransform)
    ensures
        same_pose(a, b) == same_pose(b, a),
{
}

/// A pose equals itself exactly when none of its components is a NaN; a pose holding
/// a NaN therefore never compares equal to any pose.
pub proof fn lemma_same_pose_reflexive_unless_nan(a: PhysicsTransform, b: PhysicsTransform)
    ensures
        same_pose(a, a) <==> !has_nan(a),
        has_nan(a) ==> !same_pose(a, b) && !same_pose(b, a),
{
}

/// Pose equality is transitive.
pub proof fn lemma_same_pose_transitive(a: PhysicsTransform, b: PhysicsTransform, c: PhysicsTransform)
    requires
        same_pose(a, b),
        same_pose(b, c),
    ensures
        same_pose(a, c),
{
}

} // verus!
