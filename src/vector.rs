use vstd::prelude::*;

verus! {

/// A point or a displacement, with integer coordinates in the library's unit of length.
#[derive(Clone, Copy, Debug, PartialEq, Eq, Structural)]
pub struct Vec3 {
    pub x: i32,
    pub y: i32,
    pub z: i32,
}

/// A rotation quaternion in fixed point: `QUAT_ONE` stands for 1.
#[derive(Clone, Copy, Debug, PartialEq, Eq, Structural)]
pub struct Quat {
    pub w: i16,
    pub x: i16,
    pub y: i16,
    pub z: i16,
}

/// The fixed-point value of 1 for quaternion components.
pub const QUAT_ONE: i16 = 16384;

impl Vec3 {
    pub fn new(x: i32, y: i32, z: i32) -> (r: Vec3)
        ensures
            r == (Vec3 { x, y, z }),
    {
        Vec3 { x, y, z }
    }

    pub fn zero() -> (r: Vec3)
        ensures
            r == (Vec3 { x: 0, y: 0, z: 0 }),
    {
        Vec3 { x: 0, y: 0, z: 0 }
    }

    pub fn one() -> (r: Vec3)
        ensures
            r == (Vec3 { x: 1, y: 1, z: 1 }),
    {
        Vec3 { x: 1, y: 1, z: 1 }
    }
}

impl Quat {
    pub fn identity() -> (r: Quat)
        ensures
            r == (Quat { w: QUAT_ONE, x: 0, y: 0, z: 0 }),
    {
        Quat { w: QUAT_ONE, x: 0, y: 0, z: 0 }
    }
}


/// `v` limited to the range of `i64`.
pub open spec fn clamp64(v: int) -> int {
    if v > i64::MAX {
        i64::MAX as int
    } else if v < i64::MIN {
        i64::MIN as int
    } else {
        v
    }
}

/// `v` limited to the range of `i64`.
pub fn clamp_i64(v: i128) -> (r: i64)
    ensures
        r == clamp64(v as int),
{
    if v > i64::MAX as i128 {
        i64::MAX
    } else if v < i64::MIN as i128 {
        i64::MIN
    } else {
        v as i64
    }
}

/// The square of `QUAT_ONE`: a rotated vector is scaled by it.
pub const QUAT_ONE_SQUARED: i128 = 268435456;

/// Squared Euclidean length.
pub open spec fn norm2(v: Vec3) -> nat {
    (v.x * v.x + v.y * v.y + v.z * v.z) as nat
}

/// The integer square root, rounded down.
pub open spec fn floor_sqrt(n: nat) -> nat
    decreases n,
{
    if n == 0 {
        0
    } else {
        let r = floor_sqrt((n - 1) as nat);
        if (r + 1) * (r + 1) <= n {
            r + 1
        } else {
            r
        }
    }
}

/// The integer square root, rounded up.
pub open spec fn ceil_sqrt(n: nat) -> nat {
    let r = floor_sqrt(n);
    if r * r == n {
        r
    } else {
        r + 1
    }
}

/// `floor_sqrt(n)` is the `r` with `r * r <= n < (r + 1) * (r + 1)`.
pub proof fn lemma_floor_sqrt(n: nat)
    ensures
        floor_sqrt(n) * floor_sqrt(n) <= n < (floor_sqrt(n) + 1) * (floor_sqrt(n) + 1),
    decreases n,
{
    if n > 0 {
        lemma_floor_sqrt((n - 1) as nat);
        let r = floor_sqrt((n - 1) as nat);
        let f = floor_sqrt(n);
        if (r + 1) * (r + 1) <= n {
            assert(f == r + 1);
            assert((r + 1) * (r + 1) < (r + 2) * (r + 2)) by (nonlinear_arith);
            assert((f + 1) * (f + 1) == (r + 2) * (r + 2));
            assert(f * f == (r + 1) * (r + 1));
        } else {
            assert(f == r);
            assert(f * f == r * r);
            assert((f + 1) * (f + 1) == (r + 1) * (r + 1));
        }
    } else {
        assert(floor_sqrt(0) == 0);
        assert((0nat + 1) * (0nat + 1) == 1) by (nonlinear_arith);
    }
}

/// There is only one `r` with `r * r <= n < (r + 1) * (r + 1)`.
pub proof fn lemma_floor_sqrt_unique(n: nat, r: nat)
    requires
        r * r <= n < (r + 1) * (r + 1),
    ensures
        r == floor_sqrt(n),
{
    lemma_floor_sqrt(n);
    let s = floor_sqrt(n);
    if r < s {
        assert((r + 1) * (r + 1) <= s * s) by (nonlinear_arith)
            requires r + 1 <= s;
    }
    if s < r {
        assert((s + 1) * (s + 1) <= r * r) by (nonlinear_arith)
            requires s + 1 <= r;
    }
}

/// A product of two bounded numbers is bounded by the product of the bounds.
pub proof fn lemma_mul_bound(a: int, b: int, ba: int, bb: int)
    requires
        -ba <= a <= ba,
        -bb <= b <= bb,
    ensures
        -(ba * bb) <= a * b <= ba * bb,
{
    assert(-(ba * bb) <= a * b <= ba * bb) by (nonlinear_arith)
        requires -ba <= a <= ba, -bb <= b <= bb;
}

/// The integer square root of `n`, rounded down.
pub fn isqrt(n: u64) -> (r: u64)
    ensures
        r == floor_sqrt(n as nat),
        r < 0x1_0000_0000,
{
    let mut lo: u64 = 0;
    let mut hi: u64 = 0x1_0000_0000;
    assert(n < hi * hi) by (nonlinear_arith)
        requires n <= u64::MAX, hi == 0x1_0000_0000;
    while hi - lo > 1
        invariant
            lo < hi <= 0x1_0000_0000,
            lo * lo <= n,
            n < hi * hi,
        decreases hi - lo,
    {
        let mid = lo + (hi - lo) / 2;
        assert(mid * mid < 0x1_0000_0000 * 0x1_0000_0000) by (nonlinear_arith)
            requires mid < 0x1_0000_0000;
        if mid * mid <= n {
            lo = mid;
        } else {
            hi = mid;
        }
    }
    assert(hi == lo + 1);
    proof {
        lemma_floor_sqrt_unique(n as nat, lo as nat);
    }
    lo
}

/// The integer square root of `n`, rounded up.
pub fn isqrt_ceil(n: u64) -> (r: u64)
    ensures
        r == ceil_sqrt(n as nat),
        r <= 0x1_0000_0000,
{
    let f = isqrt(n);
    assert(f * f < 0x1_0000_0000 * 0x1_0000_0000) by (nonlinear_arith)
        requires f < 0x1_0000_0000;
    if f * f == n {
        f
    } else {
        f + 1
    }
}

/// The rounded-up root squares to at least `n`, and is no smaller than the rounded-down one.
pub proof fn lemma_ceil_sqrt(n: nat)
    ensures
        ceil_sqrt(n) * ceil_sqrt(n) >= n,
        floor_sqrt(n) <= ceil_sqrt(n),
{
    lemma_floor_sqrt(n);
}

impl Vec3 {
    /// Squared Euclidean length.
    pub fn norm2(&self) -> (r: u64)
        ensures
            r == norm2(*self),
    {
        let x = self.x as i64;
        let y = self.y as i64;
        let z = self.z as i64;
        proof {
            lemma_mul_bound(x as int, x as int, 0x8000_0000, 0x8000_0000);
            lemma_mul_bound(y as int, y as int, 0x8000_0000, 0x8000_0000);
            lemma_mul_bound(z as int, z as int, 0x8000_0000, 0x8000_0000);
            assert(x * x >= 0 && y * y >= 0 && z * z >= 0) by (nonlinear_arith);
        }
        (x * x) as u64 + (y * y) as u64 + (z * z) as u64
    }

    /// Euclidean length, rounded up.
    pub fn length_ceil(&self) -> (r: u64)
        ensures
            r == ceil_sqrt(norm2(*self)),
            r <= 0x1_0000_0000,
    {
        isqrt_ceil(self.norm2())
    }
}

/// The rotation of `(vx, vy, vz)` by `q`, multiplied by `QUAT_ONE_SQUARED`:
/// `v (w^2 - b.b) + 2 (v.b) b + 2 w (b x v)` with `b = (q.x, q.y, q.z)`.
pub open spec fn rotate_scaled(q: Quat, vx: int, vy: int, vz: int) -> (int, int, int) {
    let (w, bx, by, bz) = (q.w as int, q.x as int, q.y as int, q.z as int);
    let k = w * w - (bx * bx + by * by + bz * bz);
    let dot = vx * bx + vy * by + vz * bz;
    (
        vx * k + 2 * dot * bx + 2 * w * (by * vz - bz * vy),
        vy * k + 2 * dot * by + 2 * w * (bz * vx - bx * vz),
        vz * k + 2 * dot * bz + 2 * w * (bx * vy - by * vx),
    )
}

/// `a * b` for `|a| <= ba` and `|b| <= bb`.
fn mul_bounded(a: i128, b: i128, Ghost(ba): Ghost<int>, Ghost(bb): Ghost<int>) -> (r: i128)
    requires
        -ba <= a <= ba,
        -bb <= b <= bb,
        ba * bb <= 0x1_0000_0000_0000_0000_0000_0000_0000,
    ensures
        r == a * b,
        -(ba * bb) <= r <= ba * bb,
{
    proof {
        lemma_mul_bound(a as int, b as int, ba, bb);
    }
    a * b
}

impl Quat {
    /// The rotation of `(vx, vy, vz)` by this quaternion, multiplied by `QUAT_ONE_SQUARED`.
    pub fn rotate_scaled(&self, vx: i64, vy: i64, vz: i64) -> (r: (i128, i128, i128))
        requires
            -0x1_0000_0000 <= vx <= 0x1_0000_0000,
            -0x1_0000_0000 <= vy <= 0x1_0000_0000,
            -0x1_0000_0000 <= vz <= 0x1_0000_0000,
        ensures
            (r.0 as int, r.1 as int, r.2 as int) == rotate_scaled(*self, vx as int, vy as int, vz as int),
            -0x10_0000_0000_0000_0000 <= r.0 <= 0x10_0000_0000_0000_0000,
            -0x10_0000_0000_0000_0000 <= r.1 <= 0x10_0000_0000_0000_0000,
            -0x10_0000_0000_0000_0000 <= r.2 <= 0x10_0000_0000_0000_0000,
    {
        let ghost q16: int = 0x8000int;
        let ghost v: int = 0x1_0000_0000int;
        let (w, bx, by, bz) = (self.w as i128, self.x as i128, self.y as i128, self.z as i128);
        let (x, y, z) = (vx as i128, vy as i128, vz as i128);
        let ww = mul_bounded(w, w, Ghost(q16), Ghost(q16));
        let bb = mul_bounded(bx, bx, Ghost(q16), Ghost(q16)) + mul_bounded(by, by, Ghost(q16), Ghost(q16))
            + mul_bounded(bz, bz, Ghost(q16), Ghost(q16));
        let k = ww - bb;
        let ghost kb: int = 0x1_0000_0000int;
        let dot = mul_bounded(x, bx, Ghost(v), Ghost(q16)) + mul_bounded(y, by, Ghost(v), Ghost(q16))
            + mul_bounded(z, bz, Ghost(v), Ghost(q16));
        let ghost db: int = 0x2_0000_0000_0000int;
        let cx = mul_bounded(by, z, Ghost(q16), Ghost(v)) - mul_bounded(bz, y, Ghost(q16), Ghost(v));
        let cy = mul_bounded(bz, x, Ghost(q16), Ghost(v)) - mul_bounded(bx, z, Ghost(q16), Ghost(v));
        let cz = mul_bounded(bx, y, Ghost(q16), Ghost(v)) - mul_bounded(by, x, Ghost(q16), Ghost(v));
        let ghost cb: int = 0x1_0000_0000_0000int;
        let rx = mul_bounded(x, k, Ghost(v), Ghost(kb)) + 2 * mul_bounded(dot, bx, Ghost(db), Ghost(q16))
            + 2 * mul_bounded(w, cx, Ghost(q16), Ghost(cb));
        let ry = mul_bounded(y, k, Ghost(v), Ghost(kb)) + 2 * mul_bounded(dot, by, Ghost(db), Ghost(q16))
            + 2 * mul_bounded(w, cy, Ghost(q16), Ghost(cb));
        let rz = mul_bounded(z, k, Ghost(v), Ghost(kb)) + 2 * mul_bounded(dot, bz, Ghost(db), Ghost(q16))
            + 2 * mul_bounded(w, cz, Ghost(q16), Ghost(cb));
        proof {
            let (sx, sy, sz) = rotate_scaled(*self, vx as int, vy as int, vz as int);
            assert(sx == rx as int) by (nonlinear_arith)
                requires
                    ww == w * w, bb == bx * bx + by * by + bz * bz, k == ww - bb,
                    dot == x * bx + y * by + z * bz, cx == by * z - bz * y,
                    rx == x * k + 2 * (dot * bx) + 2 * (w * cx),
                    sx == x * (w * w - (bx * bx + by * by + bz * bz)) + 2 * (x * bx + y * by + z * bz) * bx
                        + 2 * w * (by * z - bz * y);
            assert(sy == ry as int) by (nonlinear_arith)
                requires
                    ww == w * w, bb == bx * bx + by * by + bz * bz, k == ww - bb,
                    dot == x * bx + y * by + z * bz, cy == bz * x - bx * z,
                    ry == y * k + 2 * (dot * by) + 2 * (w * cy),
                    sy == y * (w * w - (bx * bx + by * by + bz * bz)) + 2 * (x * bx + y * by + z * bz) * by
                        + 2 * w * (bz * x - bx * z);
            assert(sz == rz as int) by (nonlinear_arith)
                requires
                    ww == w * w, bb == bx * bx + by * by + bz * bz, k == ww - bb,
                    dot == x * bx + y * by + z * bz, cz == bx * y - by * x,
                    rz == z * k + 2 * (dot * bz) + 2 * (w * cz),
                    sz == z * (w * w - (bx * bx + by * by + bz * bz)) + 2 * (x * bx + y * by + z * bz) * bz
                        + 2 * w * (bx * y - by * x);
        }
        (rx, ry, rz)
    }
}

} // verus!
