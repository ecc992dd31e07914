pub mod cube;
pub mod sphere;

use vstd::prelude::*;
use crate::primitive::Primitive as NodePrimitive;
use self::cube::{cube_bound, cube_distance, Cube};
use self::sphere::{sphere_bound, sphere_distance, Sphere};
use crate::vector::Vec3;

verus! {

/// A leaf shape of a tree.
#[derive(Clone, Copy, Debug, PartialEq, Eq, Structural)]
pub enum Primitive {
    Sphere(Sphere),
    Cube(Cube),
}

/// The node that stands for a leaf shape in the flattened tree.
pub open spec fn node_of(p: Primitive) -> NodePrimitive {
    match p {
        Primitive::Sphere(s) => NodePrimitive::Sphere { radius: s.radius, offset: s.center },
        Primitive::Cube(c) => NodePrimitive::Cube { offset: c.position, size: c.scale, rotation: c.rotation },
    }
}

/// Signed distance from `at` to a leaf shape.
pub open spec fn prim_distance(p: Primitive, at: Vec3) -> int {
    match p {
        Primitive::Sphere(s) => sphere_distance(s, at),
        Primitive::Cube(c) => cube_distance(c, at),
    }
}

/// Half the side of an origin-centred cube that holds a leaf shape.
pub open spec fn prim_bound(p: Primitive) -> int {
    match p {
        Primitive::Sphere(s) => sphere_bound(s),
        Primitive::Cube(c) => cube_bound(c),
    }
}

impl Primitive {
    /// Signed distance from `at` to the shape.
    pub fn distance_function(&self, at: Vec3) -> (r: i64)
        ensures
            r == prim_distance(*self, at),
    {
        match self {
            Primitive::Sphere(s) => s.distance_function(at),
            Primitive::Cube(c) => c.distance_function(at),
        }
    }

    /// Half the side of an origin-centred cube that holds the shape.
    pub fn bounding_cube(&self) -> (r: i64)
        ensures
            r == prim_bound(*self),
    {
        match self {
            Primitive::Sphere(s) => s.bounding_cube(),
            Primitive::Cube(c) => c.bounding_cube(),
        }
    }

    /// The shape that a primitive node stands for.
    pub fn from_node(p: NodePrimitive) -> (r: Primitive)
        ensures
            r == crate::flat::leaf_of(p),
    {
        match p {
            NodePrimitive::Sphere { radius, offset } => Primitive::Sphere(Sphere { center: offset, radius }),
            NodePrimitive::Cube { offset, size, rotation } => Primitive::Cube(
                Cube { position: offset, rotation, scale: size },
            ),
        }
    }

    /// The node payload of this shape.
    pub fn node(&self) -> (r: NodePrimitive)
        ensures
            r == node_of(*self),
    {
        match self {
            Primitive::Sphere(s) => NodePrimitive::Sphere { radius: s.radius, offset: s.center },
            Primitive::Cube(c) => NodePrimitive::Cube { offset: c.position, size: c.scale, rotation: c.rotation },
        }
    }
}

} // verus!
