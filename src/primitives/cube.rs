use vstd::prelude::*;
use crate::vector::{ceil_sqrt, norm2, rotate_scaled, Quat, Vec3, QUAT_ONE_SQUARED};
use vstd::math::{abs, max3};

verus! {

/// A box: the unit cube scaled by `scale`, turned by `rotation`, moved to `position`.
#[derive(Clone, Copy, Debug, PartialEq, Eq, Structural)]
pub struct Cube {
    pub position: Vec3,
    pub rotation: Quat,
    pub scale: Vec3,
}

/// How far `at` lies beyond the box, in units of `1 / (2 * QUAT_ONE_SQUARED)`:
/// the point is taken into the box's frame (scaled by `QUAT_ONE_SQUARED`), and
/// this is the largest overshoot of a coordinate beyond half the box's extent on
/// that axis. Positive outside the box, negative inside, zero on its surface.
pub open spec fn cube_excess(c: Cube, at: Vec3) -> int {
    let (nx, ny, nz) = rotate_scaled(c.rotation, at.x - c.position.x, at.y - c.position.y, at.z - c.position.z);
    let q = QUAT_ONE_SQUARED as int;
    max3(
        2 * abs(nx) as int - c.scale.x as int * q,
        2 * abs(ny) as int - c.scale.y as int * q,
        2 * abs(nz) as int - c.scale.z as int * q,
    )
}

/// Signed distance from `at` to the box: its excess brought back to the unit of
/// length, rounded away from zero so that its sign is exact.
pub open spec fn cube_distance(c: Cube, at: Vec3) -> int {
    let m = cube_excess(c, at);
    let d = 2 * QUAT_ONE_SQUARED as int;
    if m > 0 {
        (m + d - 1) / d
    } else {
        m / d
    }
}

/// The box's distance is positive exactly outside it, negative exactly inside
/// it, and zero exactly on its surface.
pub proof fn lemma_cube_sign(c: Cube, at: Vec3)
    ensures
        cube_distance(c, at) > 0 <==> cube_excess(c, at) > 0,
        cube_distance(c, at) < 0 <==> cube_excess(c, at) < 0,
        cube_distance(c, at) == 0 <==> cube_excess(c, at) == 0,
{
    let m = cube_excess(c, at);
    let d = 2 * QUAT_ONE_SQUARED as int;
    if m > 0 {
        vstd::arithmetic::div_mod::lemma_div_is_ordered(d, m + d - 1, d);
        vstd::arithmetic::div_mod::lemma_div_basics(d);
    } else if m < 0 {
        vstd::arithmetic::div_mod::lemma_div_is_ordered(m, -1, d);
        vstd::arithmetic::div_mod::lemma_fundamental_div_mod(-1, d);
    }
}

/// Half the side of an origin-centred cube that holds the box: the distance of
/// its centre from the origin plus half its diagonal, both rounded up.
pub open spec fn cube_bound(c: Cube) -> int {
    ceil_sqrt(norm2(c.position)) as int + (ceil_sqrt(norm2(c.scale)) as int + 1) / 2
}

/// `|v|` for a rotated coordinate.
fn magnitude(v: i128) -> (r: i128)
    requires
        -0x10_0000_0000_0000_0000 <= v <= 0x10_0000_0000_0000_0000,
    ensures
        r == abs(v as int),
        0 <= r <= 0x10_0000_0000_0000_0000,
{
    if v >= 0 {
        v
    } else {
        -v
    }
}

impl Cube {
    /// Signed distance from `at` to the box, rounded away from zero: positive
    /// outside, negative inside.
    pub fn distance_function(&self, at: Vec3) -> (r: i64)
        ensures
            r == cube_distance(*self, at),
            r > 0 <==> cube_excess(*self, at) > 0,
            r < 0 <==> cube_excess(*self, at) < 0,
    {
        proof {
            lemma_cube_sign(*self, at);
        }
        let vx = at.x as i64 - self.position.x as i64;
        let vy = at.y as i64 - self.position.y as i64;
        let vz = at.z as i64 - self.position.z as i64;
        let (nx, ny, nz) = self.rotation.rotate_scaled(vx, vy, vz);
        let tx = 2 * magnitude(nx) - self.scale.x as i128 * QUAT_ONE_SQUARED;
        let ty = 2 * magnitude(ny) - self.scale.y as i128 * QUAT_ONE_SQUARED;
        let tz = 2 * magnitude(nz) - self.scale.z as i128 * QUAT_ONE_SQUARED;
        let mut m = tx;
        if ty > m {
            m = ty;
        }
        if tz > m {
            m = tz;
        }
        let d: i128 = 2 * QUAT_ONE_SQUARED;
        let ghost gm = m as int;
        let ghost gd = d as int;
        let r: i128 = if m > 0 {
            ((m + d - 1) as u128 / d as u128) as i128
        } else if m == 0 {
            0
        } else {
            let up = ((-m + d - 1) as u128 / d as u128) as i128;
            proof {
                vstd::arithmetic::div_mod::lemma_fundamental_div_mod(-gm + gd - 1, gd);
                vstd::arithmetic::div_mod::lemma_fundamental_div_mod(gm, gd);
                vstd::arithmetic::div_mod::lemma_mod_pos_bound(-gm + gd - 1, gd);
            }
            -up
        };
        proof {
            vstd::arithmetic::div_mod::lemma_div_is_ordered(gm + gd - 1, 0x40_0000_0000_0000_0000int, gd);
            vstd::arithmetic::div_mod::lemma_div_is_ordered(-0x40_0000_0000_0000_0000int, gm, gd);
        }
        r as i64
    }

    /// The distance of the centre from the origin plus half the diagonal, both rounded up.
    pub fn bounding_cube(&self) -> (r: i64)
        ensures
            r == cube_bound(*self),
    {
        self.position.length_ceil() as i64 + (self.scale.length_ceil() as i64 + 1) / 2
    }

    /// The unit cube at the origin, unrotated.
    pub fn origin() -> (r: Cube)
        ensures
            r == (Cube { position: Vec3 { x: 0, y: 0, z: 0 }, rotation: Quat { w: crate::vector::QUAT_ONE, x: 0, y: 0, z: 0 }, scale: Vec3 { x: 1, y: 1, z: 1 } }),
    {
        Cube { position: Vec3::zero(), rotation: Quat::identity(), scale: Vec3::one() }
    }

    /// The same cube moved to `at`.
    pub fn at(self, at: Vec3) -> (r: Cube)
        ensures
            r == (Cube { position: at, ..self }),
    {
        Cube { position: at, ..self }
    }

    /// The same cube with rotation `rot`.
    pub fn rotated(self, rot: Quat) -> (r: Cube)
        ensures
            r == (Cube { rotation: rot, ..self }),
    {
        Cube { rotation: rot, ..self }
    }

    /// The same cube with scale `scale`.
    pub fn scaled(self, scale: Vec3) -> (r: Cube)
        ensures
            r == (Cube { scale, ..self }),
    {
        Cube { scale, ..self }
    }
}

} // verus!
