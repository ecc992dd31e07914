use vstd::prelude::*;
use crate::vector::{Quat, Vec3};

verus! {

/// The payload of a leaf node of the flattened tree.
#[derive(Clone, Copy, Debug, PartialEq, Eq, Structural)]
pub enum Primitive {
    Sphere { radius: i32, offset: Vec3 },
    Cube { offset: Vec3, size: Vec3, rotation: Quat },
}

/// Number of variants of `Primitive`.
pub const PRIMITIVE_VAR_COUNT: u32 = 2;

impl Primitive {
    pub open spec fn spec_id(&self) -> u32 {
        match self {
            Primitive::Sphere { .. } => 0,
            Primitive::Cube { .. } => 1,
        }
    }

    /// The index of this variant among the variants of `Primitive`.
    pub fn id(&self) -> (r: u32)
        ensures
            r == self.spec_id(),
            r < PRIMITIVE_VAR_COUNT,
    {
        match self {
            Primitive::Sphere { .. } => 0,
            Primitive::Cube { .. } => 1,
        }
    }

    /// A sphere of the given radius, centred at the origin.
    pub fn sphere(radius: i32) -> (r: Primitive)
        ensures
            r == (Primitive::Sphere { radius, offset: Vec3 { x: 0, y: 0, z: 0 } }),
    {
        Primitive::Sphere { radius, offset: Vec3::zero() }
    }

    /// The same primitive moved to `offset`.
    pub fn at(self, offset: Vec3) -> (r: Primitive)
        ensures
            r == (match self {
                Primitive::Sphere { radius, .. } => Primitive::Sphere { radius, offset },
                Primitive::Cube { size, rotation, .. } => Primitive::Cube { offset, size, rotation },
            }),
    {
        match self {
            Primitive::Sphere { radius, .. } => Primitive::Sphere { radius, offset },
            Primitive::Cube { size, rotation, .. } => Primitive::Cube { offset, size, rotation },
        }
    }
}

} // verus!
