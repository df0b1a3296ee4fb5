//! Where an entity stands in the world.

use vstd::prelude::*;
use crate::vertex::{ONE, ZERO};

verus! {

/// Bit pattern of the single-precision value `-1.0`.
pub const MINUS_ONE: u32 = 0xBF80_0000;

/// Bit pattern of the single-precision value `-100.0`.
pub const MINUS_HUNDRED: u32 = 0xC2C8_0000;

/// Position, rotation (Euler angles) and scale of an entity. Every
/// component is a single-precision value stored as its bit pattern.
#[derive(Clone, Copy, Debug, PartialEq, Eq)]
pub struct Transform {
    pub position: [u32; 3],
    pub rotation: [u32; 3],
    pub scale: [u32; 3],
}

impl Transform {
    /// The transform that leaves an entity where it is: no translation, no
    /// rotation, scale one.
    pub open spec fn spec_identity() -> Transform {
        Transform {
            position: [ZERO, ZERO, ZERO],
            rotation: [ZERO, ZERO, ZERO],
            scale: [ONE, ONE, ONE],
        }
    }

    /// A transform of the given position, rotation and scale.
    pub fn new(position: [u32; 3], rotation: [u32; 3], scale: [u32; 3]) -> (transform: Self)
        ensures
            transform == (Transform { position, rotation, scale }),
    {
        Self { position, rotation, scale }
    }

    /// The transform that leaves an entity where it is.
    #[verifier::when_used_as_spec(spec_identity)]
    pub fn identity() -> (transform: Self)
        ensures
            transform == Transform::spec_identity(),
    {
        Self {
            position: [ZERO, ZERO, ZERO],
            rotation: [ZERO, ZERO, ZERO],
            scale: [ONE, ONE, ONE],
        }
    }
}

} // verus!
