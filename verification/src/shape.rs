//! Collision and primitive shape descriptors.
//!
//! Pure value types with no behavior beyond storage.  Every float in the
//! geometry is carried as its IEEE-754 bit pattern in a `u32` (see
//! [`crate::types`]).

use crate::types::Vec3;
use vstd::prelude::*;

verus! {

/// A line segment: the simplest 1D shape, defined by two endpoints.
#[derive(Clone, Copy, Debug, PartialEq, Eq, Structural)]
pub struct Segment {
    pub a: Vec3,
    pub b: Vec3,
}

impl Default for Segment {
    fn default() -> (s: Segment)
        ensures
            s.a == Vec3::spec_zero() && s.b == Vec3::spec_zero(),
    {
        Segment { a: Vec3::zero(), b: Vec3::zero() }
    }
}

/// A ball shape: a sphere in 3D.  The radius is a float bit pattern.
#[derive(Clone, Copy, Debug, PartialEq, Eq, Structural)]
pub struct Ball {
    pub radius: u32,
}

impl Default for Ball {
    fn default() -> (b: Ball)
        ensures
            b.radius == 0,
    {
        Ball { radius: 0 }
    }
}

/// A capsule shape: a segment with a radius, also known as a pill or capped
/// cylinder.
#[derive(Clone, Copy, Debug, PartialEq, Eq, Structural)]
pub struct Capsule {
    pub segment: Segment,
    pub radius: u32,
}

impl Default for Capsule {
    fn default() -> (c: Capsule)
        ensures
            c.segment.a == Vec3::spec_zero() && c.segment.b == Vec3::spec_zero() && c.radius == 0,
    {
        Capsule { segment: Segment::default(), radius: 0 }
    }
}

/// A cuboid shape: a box described by its half extents.
#[derive(Clone, Copy, Debug, PartialEq, Eq, Structural)]
pub struct Cuboid {
    pub half_extents: Vec3,
}

impl Default for Cuboid {
    fn default() -> (c: Cuboid)
        ensures
            c.half_extents == Vec3::spec_zero(),
    {
        Cuboid { half_extents: Vec3::zero() }
    }
}

/// A 3D heightfield: a `width` by `height` grid of sample heights (float bit
/// patterns) with an overall scale.
#[derive(Clone, Debug, PartialEq, Eq)]
pub struct Heightfield {
    pub width: u32,
    pub height: u32,
    pub heights: Vec<u32>,
    pub scale: Vec3,
}

impl Default for Heightfield {
    fn default() -> (h: Heightfield)
        ensures
            h.width == 0 && h.height == 0 && h.heights@ == Seq::<u32>::empty() && h.scale
                == Vec3::spec_zero(),
    {
        Heightfield { width: 0, height: 0, heights: Vec::new(), scale: Vec3::zero() }
    }
}

/// A vertex-index triangle of a hull's triangulation.
#[derive(Clone, Copy, Debug, PartialEq, Eq, Structural)]
pub struct Triangle {
    pub v1: u32,
    pub v2: u32,
    pub v3: u32,
}

impl Default for Triangle {
    fn default() -> (t: Triangle)
        ensures
            t.v1 == 0 && t.v2 == 0 && t.v3 == 0,
    {
        Triangle { v1: 0, v2: 0, v3: 0 }
    }
}

/// A convex hull: a point cloud and the triangles that form the hull.
#[derive(Clone, Debug, PartialEq, Eq)]
pub struct ConvexHull {
    /// Point cloud.
    pub points: Vec<Vec3>,
    /// Triangles that form the hull.
    pub indices: Vec<Triangle>,
}

impl Default for ConvexHull {
    fn default() -> (c: ConvexHull)
        ensures
            c.points@ == Seq::<Vec3>::empty() && c.indices@ == Seq::<Triangle>::empty(),
    {
        ConvexHull { points: Vec::new(), indices: Vec::new() }
    }
}

/// A primitive shape used to visualize an object directly.
#[derive(Clone, Debug, PartialEq, Eq)]
pub enum PrimitiveShape {
    Cuboid(Cuboid),
    Ball(Ball),
    Capsule(Capsule),
}

/// The physical boundary of an object, used for physics and hit detection.
#[derive(Clone, Debug, PartialEq, Eq)]
pub enum CollisionShape {
    NoShape,
    Cuboid(Cuboid),
    Ball(Ball),
    Capsule(Capsule),
    Heightfield(Heightfield),
    ConvexHull(ConvexHull),
}

impl Default for CollisionShape {
    fn default() -> (c: CollisionShape)
        ensures
            c == CollisionShape::NoShape,
    {
        CollisionShape::NoShape
    }
}

} // verus!
