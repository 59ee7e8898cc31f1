//! The world-space origin that rendering is re-centred on.
use crate::float_bits::F64Bits;
use crate::physics_transform::DVec2Bits;
use vstd::prelude::*;

verus! {

/// World-space origin subtracted from every `PhysicsTransform` translation before it is
/// narrowed for rendering; typically the camera's position in physics space.
#[derive(Clone, Copy, Debug)]
pub struct RenderOrigin(pub DVec2Bits);

impl Default for RenderOrigin {
    /// The world origin (both coordinates `+0.0`).
    fn default() -> (r: Self)
        ensures
            r.0.x.bits == 0,
            r.0.y.bits == 0,
    {
        RenderOrigin(DVec2Bits { x: F64Bits::zero(), y: F64Bits::zero() })
    }
}

} // verus!
