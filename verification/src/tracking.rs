//! The last pose handed to the solver for each rigid body, and the change test built on it.
use crate::physics_transform::{same_pose, PhysicsTransform};
use std::collections::HashMap;
use vstd::prelude::*;

verus! {

broadcast use vstd::std_specs::hash::group_hash_axioms;

/// Key of a rigid-body handle: its generation in the high 32 bits, its arena index in the low ones.
pub open spec fn body_key_spec(index: u32, generation: u32) -> int {
    generation * 0x1_0000_0000 + index
}

/// Packs a rigid-body handle's raw parts (arena index, generation) into one map key.
pub fn body_key(index: u32, generation: u32) -> (k: u64)
    ensures
        k == body_key_spec(index, generation),
{
    let g: u64 = generation as u64;
    let i: u64 = index as u64;
    assert((g << 32u64) | i == g * 0x1_0000_0000 + i) by (bit_vector)
        requires
            g < 0x1_0000_0000,
            i < 0x1_0000_0000,
    ;
    (g << 32u64) | i
}

/// Distinct handles never share a key.
pub proof fn lemma_body_key_injective(i1: u32, g1: u32, i2: u32, g2: u32)
    ensures
        body_key_spec(i1, g1) == body_key_spec(i2, g2) ==> i1 == i2 && g1 == g2,
{
}

/// Whether a pose must be pushed to the solver: always when an update is forced,
/// when no pose was recorded for the body, or when the recorded pose differs from `pt`.
pub open spec fn transform_changed(
    force_update: bool,
    last: Map<u64, PhysicsTransform>,
    key: u64,
    pt: PhysicsTransform,
) -> bool {
    ||| force_update
    ||| !last.contains_key(key)
    ||| !same_pose(last[key], pt)
}

/// For each rigid body (by key), the last pose that the pose-sync systems handed to
/// the solver or read back from it.
pub struct LastPhysicsTransforms {
    map: HashMap<u64, PhysicsTransform>,
}

impl View for LastPhysicsTransforms {
    type V = Map<u64, PhysicsTransform>;

    closed spec fn view(&self) -> Map<u64, PhysicsTransform> {
        self.map@
    }
}

impl LastPhysicsTransforms {
    /// An empty record.
    pub fn new() -> (r: LastPhysicsTransforms)
        ensures
            r@ == Map::<u64, PhysicsTransform>::empty(),
    {
        LastPhysicsTransforms { map: HashMap::new() }
    }

    /// The pose recorded for `key`, if any.
    pub fn get(&self, key: u64) -> (r: Option<PhysicsTransform>)
        ensures
            match r {
                Some(p) => self@.contains_key(key) && p == self@[key],
                None => !self@.contains_key(key),
            },
    {
        match self.map.get(&key) {
            Some(p) => Some(*p),
            None => None,
        }
    }

    /// Records `pt` as the last pose of `key`, replacing any earlier one.
    pub fn insert(&mut self, key: u64, pt: PhysicsTransform)
        ensures
            final(self)@ == old(self)@.insert(key, pt),
    {
        self.map.insert(key, pt);
    }

    /// Number of bodies with a recorded pose.
    pub fn len(&self) -> (r: usize)
        ensures
            r == self@.len(),
    {
        self.map.len()
    }
}

/// Decides whether `pt` is a change for the body `key`: true when `force_update` is set,
/// when `last` holds no pose for the body, or when the held pose differs from `pt`.
pub fn physics_transform_changed(
    force_update: bool,
    last: &LastPhysicsTransforms,
    key: u64,
    pt: &PhysicsTransform,
) -> (r: bool)
    ensures
        r == transform_changed(force_update, last@, key, *pt),
{
    if force_update {
        true
    } else {
        match last.get(key) {
            Some(prev) => prev != *pt,
            None => true,
        }
    }
}

} // verus!
