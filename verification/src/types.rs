//! Plain value types shared by the object schema.
//!
//! The editor's transforms are made of 32-bit floats, but none of the logic
//! here ever computes with a coordinate: transforms are stored whole and
//! replaced whole.  Each component is therefore carried as its IEEE-754 bit
//! pattern in a `u32`, which round-trips losslessly and keeps every contract
//! exact.

use crate::shape::PrimitiveShape;
use vstd::prelude::*;

verus! {

/// Bit pattern of the 32-bit float `0.0`.
pub const F32_ZERO_BITS: u32 = 0;

/// Bit pattern of the 32-bit float `1.0`.
pub const F32_ONE_BITS: u32 = 0x3F80_0000;

/// A 3-component vector; each component is a 32-bit float bit pattern.
#[derive(Clone, Copy, Debug, PartialEq, Eq, Structural)]
pub struct Vec3 {
    pub x: u32,
    pub y: u32,
    pub z: u32,
}

impl Vec3 {
    /// The zero vector `(0, 0, 0)`.
    pub open spec fn spec_zero() -> Vec3 {
        Vec3 { x: F32_ZERO_BITS, y: F32_ZERO_BITS, z: F32_ZERO_BITS }
    }

    /// The unit-scale vector `(1, 1, 1)`.
    pub open spec fn spec_one() -> Vec3 {
        Vec3 { x: F32_ONE_BITS, y: F32_ONE_BITS, z: F32_ONE_BITS }
    }

    /// The zero vector `(0, 0, 0)`.
    pub fn zero() -> (v: Vec3)
        ensures
            v == Vec3::spec_zero(),
    {
        Vec3 { x: F32_ZERO_BITS, y: F32_ZERO_BITS, z: F32_ZERO_BITS }
    }

    /// The unit-scale vector `(1, 1, 1)`.
    pub fn one() -> (v: Vec3)
        ensures
            v == Vec3::spec_one(),
    {
        Vec3 { x: F32_ONE_BITS, y: F32_ONE_BITS, z: F32_ONE_BITS }
    }
}

impl Default for Vec3 {
    /// The zero vector, matching the all-zero default of the float form.
    fn default() -> (v: Vec3)
        ensures
            v == Vec3::spec_zero(),
    {
        Vec3::zero()
    }
}

/// A quaternion; each component is a 32-bit float bit pattern.
#[derive(Clone, Copy, Debug, PartialEq, Eq, Structural)]
pub struct Quat {
    pub x: u32,
    pub y: u32,
    pub z: u32,
    pub w: u32,
}

impl Quat {
    /// The identity rotation `(0, 0, 0, 1)`.
    pub open spec fn spec_identity() -> Quat {
        Quat { x: F32_ZERO_BITS, y: F32_ZERO_BITS, z: F32_ZERO_BITS, w: F32_ONE_BITS }
    }

    /// The all-zero quaternion.
    pub open spec fn spec_zero() -> Quat {
        Quat { x: F32_ZERO_BITS, y: F32_ZERO_BITS, z: F32_ZERO_BITS, w: F32_ZERO_BITS }
    }

    /// The identity rotation `(0, 0, 0, 1)`.
    pub fn identity() -> (q: Quat)
        ensures
            q == Quat::spec_identity(),
    {
        Quat { x: F32_ZERO_BITS, y: F32_ZERO_BITS, z: F32_ZERO_BITS, w: F32_ONE_BITS }
    }
}

impl Default for Quat {
    /// The all-zero quaternion, matching the all-zero default of the float
    /// form (note: not the identity rotation).
    fn default() -> (q: Quat)
        ensures
            q == Quat::spec_zero(),
    {
        Quat { x: F32_ZERO_BITS, y: F32_ZERO_BITS, z: F32_ZERO_BITS, w: F32_ZERO_BITS }
    }
}

/// How an object is visualized: a file asset under the asset root, or a
/// primitive shape.
#[derive(Clone, Debug, PartialEq, Eq)]
pub enum AssetKind {
    /// Path to the 3D asset file, relative to the asset root,
    /// e.g. `models/alien.glb`.
    Path(String),
    /// Primitive shape rendered directly.
    PrimitiveShape(PrimitiveShape),
}

impl AssetKind {
    /// The asset path carried by this reference, when it is one.
    pub open spec fn spec_path(&self) -> Option<Seq<char>> {
        match self {
            AssetKind::Path(p) => Some(p@),
            AssetKind::PrimitiveShape(_) => None,
        }
    }
}

} // verus!
