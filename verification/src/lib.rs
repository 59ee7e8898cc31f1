//! Verified core of the double-precision pose pipeline of a Rapier/Bevy integration.
//!
//! Poses are carried as IEEE-754 bit patterns so that the change detection, the
//! bookkeeping of the last pose handed to the solver and the per-body decisions of the
//! pose-sync systems can be stated and proved without floating point.
pub mod float_bits;
pub mod physics_transform;
pub mod tracking;
pub mod systems;
pub mod laws;
pub mod solver_bodies;
pub mod render_bridge;
