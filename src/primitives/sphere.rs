use vstd::prelude::*;
use crate::vector::{
    ceil_sqrt, floor_sqrt, isqrt, isqrt_ceil, lemma_ceil_sqrt, lemma_floor_sqrt, lemma_floor_sqrt_unique, norm2, Vec3,
};

verus! {

/// A ball given by its centre and radius.
#[derive(Clone, Copy, Debug, PartialEq, Eq, Structural)]
pub struct Sphere {
    pub center: Vec3,
    pub radius: i32,
}

/// Whether `at` lies strictly outside the sphere, the sphere taken at the origin.
pub open spec fn sphere_outside(s: Sphere, at: Vec3) -> bool {
    s.radius < 0 || norm2(at) > s.radius * s.radius
}

/// Whether `at` lies strictly inside the sphere, the sphere taken at the origin.
pub open spec fn sphere_inside(s: Sphere, at: Vec3) -> bool {
    s.radius >= 0 && norm2(at) < s.radius * s.radius
}

/// Signed distance from `at` to the sphere's surface, the sphere taken at the
/// origin: the length of `at` less the radius, rounded away from zero, so that
/// its sign is exact.
pub open spec fn sphere_distance(s: Sphere, at: Vec3) -> int {
    if sphere_outside(s, at) {
        ceil_sqrt(norm2(at)) as int - s.radius as int
    } else {
        floor_sqrt(norm2(at)) as int - s.radius as int
    }
}

/// The sphere's distance is positive exactly outside it, negative exactly inside
/// it, and zero exactly on its surface.
pub proof fn lemma_sphere_sign(s: Sphere, at: Vec3)
    ensures
        sphere_distance(s, at) > 0 <==> sphere_outside(s, at),
        sphere_distance(s, at) < 0 <==> sphere_inside(s, at),
        sphere_distance(s, at) == 0 <==> !sphere_outside(s, at) && !sphere_inside(s, at),
{
    let n = norm2(at);
    let r = s.radius as int;
    lemma_ceil_sqrt(n);
    lemma_floor_sqrt(n);
    let c = ceil_sqrt(n) as int;
    let f = floor_sqrt(n) as int;
    if sphere_outside(s, at) && r >= 0 {
        if c <= r {
            assert(c * c <= r * r) by (nonlinear_arith)
                requires 0 <= c <= r;
        }
    }
    if sphere_inside(s, at) {
        if f >= r {
            assert(f * f >= r * r) by (nonlinear_arith)
                requires 0 <= r <= f;
        }
    }
    if !sphere_outside(s, at) && !sphere_inside(s, at) {
        assert(n == r * r);
        assert(r * r < (r + 1) * (r + 1)) by (nonlinear_arith)
            requires r >= 0;
        lemma_floor_sqrt_unique(n, r as nat);
    }
}

/// Half the side of an origin-centred cube that holds the sphere.
pub open spec fn sphere_bound(s: Sphere) -> int {
    s.radius as int + ceil_sqrt(norm2(s.center)) as int
}

impl Sphere {
    /// Signed distance from `at` to the surface: the length of `at` less the
    /// radius, rounded away from zero. Positive outside, negative inside.
    pub fn distance_function(&self, at: Vec3) -> (r: i64)
        ensures
            r == sphere_distance(*self, at),
            r > 0 <==> sphere_outside(*self, at),
            r < 0 <==> sphere_inside(*self, at),
    {
        proof {
            lemma_sphere_sign(*self, at);
        }
        let n = at.norm2();
        let radius = self.radius as i64;
        let outside = if radius < 0 {
            true
        } else {
            proof {
                crate::vector::lemma_mul_bound(radius as int, radius as int, 0x8000_0000, 0x8000_0000);
                assert(radius * radius >= 0) by (nonlinear_arith);
            }
            n > (radius * radius) as u64
        };
        if outside {
            isqrt_ceil(n) as i64 - radius
        } else {
            isqrt(n) as i64 - radius
        }
    }

    /// The radius plus the distance of the centre from the origin, rounded up.
    pub fn bounding_cube(&self) -> (r: i64)
        ensures
            r == sphere_bound(*self),
    {
        self.radius as i64 + self.center.length_ceil() as i64
    }

    /// A sphere of the given radius centred at the origin.
    pub fn centered(radius: i32) -> (r: Sphere)
        ensures
            r == (Sphere { center: Vec3 { x: 0, y: 0, z: 0 }, radius }),
    {
        Sphere { center: Vec3::zero(), radius }
    }

    /// The same sphere centred at `at`.
    pub fn at(self, at: Vec3) -> (r: Sphere)
        ensures
            r == (Sphere { center: at, ..self }),
    {
        Sphere { center: at, ..self }
    }
}

} // verus!
