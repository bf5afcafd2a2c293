//! Exact integer vector, matrix and bounding-box arithmetic.
//!
//! All scalar quantities in the engine are integer fixed-point units.  Matrix
//! entries supplied by callers are bounded by [`MAT_BOUND`] and mesh
//! coordinates by [`COORD_BOUND`]; products of two bounded matrices stay
//! within [`PROD_BOUND`] and transformed coordinates within [`BOX_BOUND`].
//! The bounds guarantee that every product below fits in the machine
//! integers used to compute it.

use vstd::prelude::*;

verus! {

/// Largest magnitude of an entry of a caller-supplied transformation matrix.
pub const MAT_BOUND: i64 = 1024;

/// Largest magnitude of an entry of a product of two bounded matrices.
pub const PROD_BOUND: i64 = 4194304;

/// Largest magnitude of a mesh vertex coordinate.
pub const COORD_BOUND: i64 = 1073741824;

/// Largest magnitude of a coordinate of a transformed bounding box.
pub const BOX_BOUND: i64 = 36028797018963968;

/// Largest magnitude of an entry of an exact matrix inverse.
pub const INV_BOUND: i64 = 4611686018427387904;

/// A three-component integer vector.
#[derive(Clone, Copy, Debug, PartialEq, Eq, Structural)]
pub struct Vec3 {
    pub x: i64,
    pub y: i64,
    pub z: i64,
}

impl Vec3 {
    /// Builds the vector `(x, y, z)`.
    pub fn new(x: i64, y: i64, z: i64) -> (r: Vec3)
        ensures
            r == (Vec3 { x, y, z }),
    {
        Vec3 { x, y, z }
    }
}

/// Whether every component of `v` has magnitude at most `b`.
pub open spec fn vec3_bounded(v: Vec3, b: int) -> bool {
    &&& -b <= v.x <= b
    &&& -b <= v.y <= b
    &&& -b <= v.z <= b
}

/// A 4x4 integer matrix; `mRC` is the entry at row `R`, column `C`.
#[derive(Clone, Copy, Debug, PartialEq, Eq, Structural)]
pub struct Mat4 {
    pub m00: i64, pub m01: i64, pub m02: i64, pub m03: i64,
    pub m10: i64, pub m11: i64, pub m12: i64, pub m13: i64,
    pub m20: i64, pub m21: i64, pub m22: i64, pub m23: i64,
    pub m30: i64, pub m31: i64, pub m32: i64, pub m33: i64,
}

/// The entry of `m` at row `r`, column `c`, as a mathematical integer.
pub open spec fn ent(m: Mat4, r: int, c: int) -> int {
    if r == 0 {
        if c == 0 { m.m00 as int } else if c == 1 { m.m01 as int }
        else if c == 2 { m.m02 as int } else { m.m03 as int }
    } else if r == 1 {
        if c == 0 { m.m10 as int } else if c == 1 { m.m11 as int }
        else if c == 2 { m.m12 as int } else { m.m13 as int }
    } else if r == 2 {
        if c == 0 { m.m20 as int } else if c == 1 { m.m21 as int }
        else if c == 2 { m.m22 as int } else { m.m23 as int }
    } else {
        if c == 0 { m.m30 as int } else if c == 1 { m.m31 as int }
        else if c == 2 { m.m32 as int } else { m.m33 as int }
    }
}

/// Whether every entry of `m` has magnitude at most `b`.
pub open spec fn mat4_bounded(m: Mat4, b: int) -> bool {
    &&& -b <= m.m00 <= b && -b <= m.m01 <= b && -b <= m.m02 <= b && -b <= m.m03 <= b
    &&& -b <= m.m10 <= b && -b <= m.m11 <= b && -b <= m.m12 <= b && -b <= m.m13 <= b
    &&& -b <= m.m20 <= b && -b <= m.m21 <= b && -b <= m.m22 <= b && -b <= m.m23 <= b
    &&& -b <= m.m30 <= b && -b <= m.m31 <= b && -b <= m.m32 <= b && -b <= m.m33 <= b
}

/// The entry at row `r`, column `c` of the matrix product `a * b`.
pub open spec fn mul_ent(a: Mat4, b: Mat4, r: int, c: int) -> int {
    ent(a, r, 0) * ent(b, 0, c) + ent(a, r, 1) * ent(b, 1, c) + ent(a, r, 2) * ent(b, 2, c)
        + ent(a, r, 3) * ent(b, 3, c)
}

/// The matrix product `a * b`, entry by entry.
pub open spec fn mat4_mul_spec(a: Mat4, b: Mat4) -> Mat4 {
    Mat4 {
        m00: mul_ent(a, b, 0, 0) as i64, m01: mul_ent(a, b, 0, 1) as i64,
        m02: mul_ent(a, b, 0, 2) as i64, m03: mul_ent(a, b, 0, 3) as i64,
        m10: mul_ent(a, b, 1, 0) as i64, m11: mul_ent(a, b, 1, 1) as i64,
        m12: mul_ent(a, b, 1, 2) as i64, m13: mul_ent(a, b, 1, 3) as i64,
        m20: mul_ent(a, b, 2, 0) as i64, m21: mul_ent(a, b, 2, 1) as i64,
        m22: mul_ent(a, b, 2, 2) as i64, m23: mul_ent(a, b, 2, 3) as i64,
        m30: mul_ent(a, b, 3, 0) as i64, m31: mul_ent(a, b, 3, 1) as i64,
        m32: mul_ent(a, b, 3, 2) as i64, m33: mul_ent(a, b, 3, 3) as i64,
    }
}

/// Whether the exact integer product `a * b` is the identity matrix.
pub open spec fn mat4_product_is_identity(a: Mat4, b: Mat4) -> bool {
    &&& mul_ent(a, b, 0, 0) == 1 && mul_ent(a, b, 0, 1) == 0
    &&& mul_ent(a, b, 0, 2) == 0 && mul_ent(a, b, 0, 3) == 0
    &&& mul_ent(a, b, 1, 0) == 0 && mul_ent(a, b, 1, 1) == 1
    &&& mul_ent(a, b, 1, 2) == 0 && mul_ent(a, b, 1, 3) == 0
    &&& mul_ent(a, b, 2, 0) == 0 && mul_ent(a, b, 2, 1) == 0
    &&& mul_ent(a, b, 2, 2) == 1 && mul_ent(a, b, 2, 3) == 0
    &&& mul_ent(a, b, 3, 0) == 0 && mul_ent(a, b, 3, 1) == 0
    &&& mul_ent(a, b, 3, 2) == 0 && mul_ent(a, b, 3, 3) == 1
}

/// Whether `b` is a two-sided exact integer inverse of `a`.
pub open spec fn mat4_is_inverse(a: Mat4, b: Mat4) -> bool {
    mat4_product_is_identity(a, b) && mat4_product_is_identity(b, a)
}

/// The transpose of `m`.
pub open spec fn mat4_transpose_spec(m: Mat4) -> Mat4 {
    Mat4 {
        m00: m.m00, m01: m.m10, m02: m.m20, m03: m.m30,
        m10: m.m01, m11: m.m11, m12: m.m21, m13: m.m31,
        m20: m.m02, m21: m.m12, m22: m.m22, m23: m.m32,
        m30: m.m03, m31: m.m13, m32: m.m23, m33: m.m33,
    }
}

/// The image of the affine point `p` under `m` (bottom row ignored).
pub open spec fn transform_point_spec(m: Mat4, p: Vec3) -> Vec3 {
    Vec3 {
        x: (ent(m, 0, 0) * p.x + ent(m, 0, 1) * p.y + ent(m, 0, 2) * p.z + ent(m, 0, 3)) as i64,
        y: (ent(m, 1, 0) * p.x + ent(m, 1, 1) * p.y + ent(m, 1, 2) * p.z + ent(m, 1, 3)) as i64,
        z: (ent(m, 2, 0) * p.x + ent(m, 2, 1) * p.y + ent(m, 2, 2) * p.z + ent(m, 2, 3)) as i64,
    }
}

impl Mat4 {
    /// The identity transformation.
    pub fn identity() -> (r: Mat4)
        ensures
            r == Mat4::identity_spec(),
    {
        Mat4 {
            m00: 1, m01: 0, m02: 0, m03: 0,
            m10: 0, m11: 1, m12: 0, m13: 0,
            m20: 0, m21: 0, m22: 1, m23: 0,
            m30: 0, m31: 0, m32: 0, m33: 1,
        }
    }

    /// The identity matrix as a specification value.
    pub open spec fn identity_spec() -> Mat4 {
        Mat4 {
            m00: 1, m01: 0, m02: 0, m03: 0,
            m10: 0, m11: 1, m12: 0, m13: 0,
            m20: 0, m21: 0, m22: 1, m23: 0,
            m30: 0, m31: 0, m32: 0, m33: 1,
        }
    }

    /// The transpose of this matrix.
    pub fn transpose(&self) -> (r: Mat4)
        ensures
            r == mat4_transpose_spec(*self),
    {
        Mat4 {
            m00: self.m00, m01: self.m10, m02: self.m20, m03: self.m30,
            m10: self.m01, m11: self.m11, m12: self.m21, m13: self.m31,
            m20: self.m02, m21: self.m12, m22: self.m22, m23: self.m32,
            m30: self.m03, m31: self.m13, m32: self.m23, m33: self.m33,
        }
    }

    /// The exact matrix product `self * other`.
    pub fn mul(&self, other: &Mat4) -> (r: Mat4)
        requires
            mat4_bounded(*self, MAT_BOUND as int),
            mat4_bounded(*other, MAT_BOUND as int),
        ensures
            r == mat4_mul_spec(*self, *other),
            mat4_bounded(r, PROD_BOUND as int),
    {
        let a = self;
        let b = other;
        let gb = Ghost(MAT_BOUND as int);
        Mat4 {
            m00: dot4(a.m00, a.m01, a.m02, a.m03, b.m00, b.m10, b.m20, b.m30, gb, gb),
            m01: dot4(a.m00, a.m01, a.m02, a.m03, b.m01, b.m11, b.m21, b.m31, gb, gb),
            m02: dot4(a.m00, a.m01, a.m02, a.m03, b.m02, b.m12, b.m22, b.m32, gb, gb),
            m03: dot4(a.m00, a.m01, a.m02, a.m03, b.m03, b.m13, b.m23, b.m33, gb, gb),
            m10: dot4(a.m10, a.m11, a.m12, a.m13, b.m00, b.m10, b.m20, b.m30, gb, gb),
            m11: dot4(a.m10, a.m11, a.m12, a.m13, b.m01, b.m11, b.m21, b.m31, gb, gb),
            m12: dot4(a.m10, a.m11, a.m12, a.m13, b.m02, b.m12, b.m22, b.m32, gb, gb),
            m13: dot4(a.m10, a.m11, a.m12, a.m13, b.m03, b.m13, b.m23, b.m33, gb, gb),
            m20: dot4(a.m20, a.m21, a.m22, a.m23, b.m00, b.m10, b.m20, b.m30, gb, gb),
            m21: dot4(a.m20, a.m21, a.m22, a.m23, b.m01, b.m11, b.m21, b.m31, gb, gb),
            m22: dot4(a.m20, a.m21, a.m22, a.m23, b.m02, b.m12, b.m22, b.m32, gb, gb),
            m23: dot4(a.m20, a.m21, a.m22, a.m23, b.m03, b.m13, b.m23, b.m33, gb, gb),
            m30: dot4(a.m30, a.m31, a.m32, a.m33, b.m00, b.m10, b.m20, b.m30, gb, gb),
            m31: dot4(a.m30, a.m31, a.m32, a.m33, b.m01, b.m11, b.m21, b.m31, gb, gb),
            m32: dot4(a.m30, a.m31, a.m32, a.m33, b.m02, b.m12, b.m22, b.m32, gb, gb),
            m33: dot4(a.m30, a.m31, a.m32, a.m33, b.m03, b.m13, b.m23, b.m33, gb, gb),
        }
    }
}

/// Exact dot product of two 4-vectors whose entries are bounded by `ba`
/// and `bb` respectively; the bounds keep all intermediates in range.
fn dot4(
    a0: i64, a1: i64, a2: i64, a3: i64,
    b0: i64, b1: i64, b2: i64, b3: i64,
    Ghost(ba): Ghost<int>, Ghost(bb): Ghost<int>,
) -> (r: i64)
    requires
        0 <= ba, 0 <= bb,
        -ba <= a0 <= ba, -ba <= a1 <= ba, -ba <= a2 <= ba, -ba <= a3 <= ba,
        -bb <= b0 <= bb, -bb <= b1 <= bb, -bb <= b2 <= bb, -bb <= b3 <= bb,
        4 * ba * bb <= i64::MAX as int,
    ensures
        r == a0 * b0 + a1 * b1 + a2 * b2 + a3 * b3,
        -(4 * ba * bb) <= r <= 4 * ba * bb,
{
    proof {
        assert(0 <= ba * bb && 4 * ba * bb == 4 * (ba * bb)) by (nonlinear_arith)
            requires 0 <= ba, 0 <= bb;
        assert(-(ba * bb) <= a0 * b0 <= ba * bb) by (nonlinear_arith)
            requires -ba <= a0 <= ba, -bb <= b0 <= bb, 0 <= ba, 0 <= bb;
        assert(-(ba * bb) <= a1 * b1 <= ba * bb) by (nonlinear_arith)
            requires -ba <= a1 <= ba, -bb <= b1 <= bb, 0 <= ba, 0 <= bb;
        assert(-(ba * bb) <= a2 * b2 <= ba * bb) by (nonlinear_arith)
            requires -ba <= a2 <= ba, -bb <= b2 <= bb, 0 <= ba, 0 <= bb;
        assert(-(ba * bb) <= a3 * b3 <= ba * bb) by (nonlinear_arith)
            requires -ba <= a3 <= ba, -bb <= b3 <= bb, 0 <= ba, 0 <= bb;
    }
    let p0: i128 = (a0 as i128) * (b0 as i128);
    let p1: i128 = (a1 as i128) * (b1 as i128);
    let p2: i128 = (a2 as i128) * (b2 as i128);
    let p3: i128 = (a3 as i128) * (b3 as i128);
    (p0 + p1 + p2 + p3) as i64
}

/// Magnitude bound on a 3x3 integer determinant of entries bounded by
/// [`PROD_BOUND`]: `6 * PROD_BOUND^3`.
pub const DET3_BOUND: i128 = 442721857769029238784;

/// Magnitude bound on a 4x4 integer determinant of entries bounded by
/// [`PROD_BOUND`]: `4 * PROD_BOUND * DET3_BOUND`.
pub const DET4_BOUND: i128 = 7427640235712281649394745344;

/// The determinant of the 3x3 matrix `[[a b c] [d e f] [g h i]]`, computed
/// exactly; entries must be bounded by [`PROD_BOUND`].
fn det3(
    a: i128, b: i128, c: i128,
    d: i128, e: i128, f: i128,
    g: i128, h: i128, i: i128,
) -> (r: i128)
    requires
        -PROD_BOUND <= a <= PROD_BOUND, -PROD_BOUND <= b <= PROD_BOUND,
        -PROD_BOUND <= c <= PROD_BOUND, -PROD_BOUND <= d <= PROD_BOUND,
        -PROD_BOUND <= e <= PROD_BOUND, -PROD_BOUND <= f <= PROD_BOUND,
        -PROD_BOUND <= g <= PROD_BOUND, -PROD_BOUND <= h <= PROD_BOUND,
        -PROD_BOUND <= i <= PROD_BOUND,
    ensures
        r == a * (e * i - f * h) - b * (d * i - f * g) + c * (d * h - e * g),
        -DET3_BOUND <= r <= DET3_BOUND,
{
    let ghost pb: int = PROD_BOUND as int;
    proof {
        assert(-(pb * pb) <= e * i <= pb * pb) by (nonlinear_arith)
            requires -pb <= e <= pb, -pb <= i <= pb, 0 <= pb;
        assert(-(pb * pb) <= f * h <= pb * pb) by (nonlinear_arith)
            requires -pb <= f <= pb, -pb <= h <= pb, 0 <= pb;
        assert(-(pb * pb) <= d * i <= pb * pb) by (nonlinear_arith)
            requires -pb <= d <= pb, -pb <= i <= pb, 0 <= pb;
        assert(-(pb * pb) <= f * g <= pb * pb) by (nonlinear_arith)
            requires -pb <= f <= pb, -pb <= g <= pb, 0 <= pb;
        assert(-(pb * pb) <= d * h <= pb * pb) by (nonlinear_arith)
            requires -pb <= d <= pb, -pb <= h <= pb, 0 <= pb;
        assert(-(pb * pb) <= e * g <= pb * pb) by (nonlinear_arith)
            requires -pb <= e <= pb, -pb <= g <= pb, 0 <= pb;
        assert(forall|x: int, y: int|
            -pb <= x <= pb && -(2 * pb * pb) <= y <= 2 * pb * pb
                ==> -(2 * pb * pb * pb) <= #[trigger] (x * y) <= 2 * pb * pb * pb)
            by (nonlinear_arith)
            requires 0 <= pb;
    }
    let t0: i128 = e * i - f * h;
    let t1: i128 = d * i - f * g;
    let t2: i128 = d * h - e * g;
    a * t0 - b * t1 + c * t2
}

/// Exact wide dot product of two 4-vectors; like [`dot4`] but the result is
/// kept as an `i128`, so much larger entry bounds are allowed.
fn dot4_wide(
    a0: i64, a1: i64, a2: i64, a3: i64,
    b0: i64, b1: i64, b2: i64, b3: i64,
    Ghost(ba): Ghost<int>, Ghost(bb): Ghost<int>,
) -> (r: i128)
    requires
        0 <= ba, 0 <= bb,
        -ba <= a0 <= ba, -ba <= a1 <= ba, -ba <= a2 <= ba, -ba <= a3 <= ba,
        -bb <= b0 <= bb, -bb <= b1 <= bb, -bb <= b2 <= bb, -bb <= b3 <= bb,
        4 * ba * bb <= i128::MAX as int,
    ensures
        r == a0 * b0 + a1 * b1 + a2 * b2 + a3 * b3,
{
    proof {
        assert(0 <= ba * bb && 4 * ba * bb == 4 * (ba * bb)) by (nonlinear_arith)
            requires 0 <= ba, 0 <= bb;
        assert(-(ba * bb) <= a0 * b0 <= ba * bb) by (nonlinear_arith)
            requires -ba <= a0 <= ba, -bb <= b0 <= bb, 0 <= ba, 0 <= bb;
        assert(-(ba * bb) <= a1 * b1 <= ba * bb) by (nonlinear_arith)
            requires -ba <= a1 <= ba, -bb <= b1 <= bb, 0 <= ba, 0 <= bb;
        assert(-(ba * bb) <= a2 * b2 <= ba * bb) by (nonlinear_arith)
            requires -ba <= a2 <= ba, -bb <= b2 <= bb, 0 <= ba, 0 <= bb;
        assert(-(ba * bb) <= a3 * b3 <= ba * bb) by (nonlinear_arith)
            requires -ba <= a3 <= ba, -bb <= b3 <= bb, 0 <= ba, 0 <= bb;
    }
    let p0: i128 = (a0 as i128) * (b0 as i128);
    let p1: i128 = (a1 as i128) * (b1 as i128);
    let p2: i128 = (a2 as i128) * (b2 as i128);
    let p3: i128 = (a3 as i128) * (b3 as i128);
    p0 + p1 + p2 + p3
}

/// Checks whether the exact integer product `a * b` is the identity.
fn product_is_identity(
    a: &Mat4,
    b: &Mat4,
    Ghost(ba): Ghost<int>,
    Ghost(bb): Ghost<int>,
) -> (r: bool)
    requires
        0 <= ba, 0 <= bb,
        mat4_bounded(*a, ba),
        mat4_bounded(*b, bb),
        4 * ba * bb <= i128::MAX as int,
    ensures
        r == mat4_product_is_identity(*a, *b),
{
    let ga = Ghost(ba);
    let gb = Ghost(bb);
    let e00 = dot4_wide(a.m00, a.m01, a.m02, a.m03, b.m00, b.m10, b.m20, b.m30, ga, gb);
    let e01 = dot4_wide(a.m00, a.m01, a.m02, a.m03, b.m01, b.m11, b.m21, b.m31, ga, gb);
    let e02 = dot4_wide(a.m00, a.m01, a.m02, a.m03, b.m02, b.m12, b.m22, b.m32, ga, gb);
    let e03 = dot4_wide(a.m00, a.m01, a.m02, a.m03, b.m03, b.m13, b.m23, b.m33, ga, gb);
    let e10 = dot4_wide(a.m10, a.m11, a.m12, a.m13, b.m00, b.m10, b.m20, b.m30, ga, gb);
    let e11 = dot4_wide(a.m10, a.m11, a.m12, a.m13, b.m01, b.m11, b.m21, b.m31, ga, gb);
    let e12 = dot4_wide(a.m10, a.m11, a.m12, a.m13, b.m02, b.m12, b.m22, b.m32, ga, gb);
    let e13 = dot4_wide(a.m10, a.m11, a.m12, a.m13, b.m03, b.m13, b.m23, b.m33, ga, gb);
    let e20 = dot4_wide(a.m20, a.m21, a.m22, a.m23, b.m00, b.m10, b.m20, b.m30, ga, gb);
    let e21 = dot4_wide(a.m20, a.m21, a.m22, a.m23, b.m01, b.m11, b.m21, b.m31, ga, gb);
    let e22 = dot4_wide(a.m20, a.m21, a.m22, a.m23, b.m02, b.m12, b.m22, b.m32, ga, gb);
    let e23 = dot4_wide(a.m20, a.m21, a.m22, a.m23, b.m03, b.m13, b.m23, b.m33, ga, gb);
    let e30 = dot4_wide(a.m30, a.m31, a.m32, a.m33, b.m00, b.m10, b.m20, b.m30, ga, gb);
    let e31 = dot4_wide(a.m30, a.m31, a.m32, a.m33, b.m01, b.m11, b.m21, b.m31, ga, gb);
    let e32 = dot4_wide(a.m30, a.m31, a.m32, a.m33, b.m02, b.m12, b.m22, b.m32, ga, gb);
    let e33 = dot4_wide(a.m30, a.m31, a.m32, a.m33, b.m03, b.m13, b.m23, b.m33, ga, gb);
    e00 == 1 && e01 == 0 && e02 == 0 && e03 == 0
        && e10 == 0 && e11 == 1 && e12 == 0 && e13 == 0
        && e20 == 0 && e21 == 0 && e22 == 1 && e23 == 0
        && e30 == 0 && e31 == 0 && e32 == 0 && e33 == 1
}

/// Divides `num` exactly by `den`, returning `None` when the quotient is not
/// an integer or falls outside [`INV_BOUND`].
fn div_exact(num: i128, den: i128) -> (r: Option<i64>)
    requires
        den != 0,
        -DET4_BOUND <= num <= DET4_BOUND,
        -DET4_BOUND <= den <= DET4_BOUND,
    ensures
        r matches Some(q) ==> -INV_BOUND <= q <= INV_BOUND,
{
    let nn: u128 = if num < 0 { (-num) as u128 } else { num as u128 };
    let dd: u128 = if den < 0 { (-den) as u128 } else { den as u128 };
    let q = nn / dd;
    let rem = nn % dd;
    if rem != 0 {
        return None;
    }
    if q > INV_BOUND as u128 {
        return None;
    }
    let qi = q as i64;
    if (num < 0) != (den < 0) {
        Some(-qi)
    } else {
        Some(qi)
    }
}

impl Mat4 {
    /// The exact integer inverse of this matrix, when one exists whose
    /// entries stay within [`INV_BOUND`].  The result is found by the
    /// adjugate method and then checked by multiplying back, so any returned
    /// matrix is certainly a two-sided inverse.
    pub fn inverse_exact(&self) -> (r: Option<Mat4>)
        requires
            mat4_bounded(*self, PROD_BOUND as int),
        ensures
            r matches Some(inv) ==> mat4_is_inverse(*self, inv)
                && mat4_bounded(inv, INV_BOUND as int),
    {
        let a00 = self.m00 as i128; let a01 = self.m01 as i128;
        let a02 = self.m02 as i128; let a03 = self.m03 as i128;
        let a10 = self.m10 as i128; let a11 = self.m11 as i128;
        let a12 = self.m12 as i128; let a13 = self.m13 as i128;
        let a20 = self.m20 as i128; let a21 = self.m21 as i128;
        let a22 = self.m22 as i128; let a23 = self.m23 as i128;
        let a30 = self.m30 as i128; let a31 = self.m31 as i128;
        let a32 = self.m32 as i128; let a33 = self.m33 as i128;
        // minor(r, c): determinant of the 3x3 matrix left after deleting
        // row r and column c.
        let n00 = det3(a11, a12, a13, a21, a22, a23, a31, a32, a33);
        let n01 = det3(a10, a12, a13, a20, a22, a23, a30, a32, a33);
        let n02 = det3(a10, a11, a13, a20, a21, a23, a30, a31, a33);
        let n03 = det3(a10, a11, a12, a20, a21, a22, a30, a31, a32);
        let n10 = det3(a01, a02, a03, a21, a22, a23, a31, a32, a33);
        let n11 = det3(a00, a02, a03, a20, a22, a23, a30, a32, a33);
        let n12 = det3(a00, a01, a03, a20, a21, a23, a30, a31, a33);
        let n13 = det3(a00, a01, a02, a20, a21, a22, a30, a31, a32);
        let n20 = det3(a01, a02, a03, a11, a12, a13, a31, a32, a33);
        let n21 = det3(a00, a02, a03, a10, a12, a13, a30, a32, a33);
        let n22 = det3(a00, a01, a03, a10, a11, a13, a30, a31, a33);
        let n23 = det3(a00, a01, a02, a10, a11, a12, a30, a31, a32);
        let n30 = det3(a01, a02, a03, a11, a12, a13, a21, a22, a23);
        let n31 = det3(a00, a02, a03, a10, a12, a13, a20, a22, a23);
        let n32 = det3(a00, a01, a03, a10, a11, a13, a20, a21, a23);
        let n33 = det3(a00, a01, a02, a10, a11, a12, a20, a21, a22);
        proof {
            let pd: int = PROD_BOUND as int * DET3_BOUND as int;
            assert(-pd <= a00 * n00 <= pd) by (nonlinear_arith)
                requires
                    pd == PROD_BOUND as int * DET3_BOUND as int,
                    -PROD_BOUND <= a00 <= PROD_BOUND,
                    -DET3_BOUND <= n00 <= DET3_BOUND;
            assert(-pd <= a01 * n01 <= pd) by (nonlinear_arith)
                requires
                    pd == PROD_BOUND as int * DET3_BOUND as int,
                    -PROD_BOUND <= a01 <= PROD_BOUND,
                    -DET3_BOUND <= n01 <= DET3_BOUND;
            assert(-pd <= a02 * n02 <= pd) by (nonlinear_arith)
                requires
                    pd == PROD_BOUND as int * DET3_BOUND as int,
                    -PROD_BOUND <= a02 <= PROD_BOUND,
                    -DET3_BOUND <= n02 <= DET3_BOUND;
            assert(-pd <= a03 * n03 <= pd) by (nonlinear_arith)
                requires
                    pd == PROD_BOUND as int * DET3_BOUND as int,
                    -PROD_BOUND <= a03 <= PROD_BOUND,
                    -DET3_BOUND <= n03 <= DET3_BOUND;
            assert(4 * pd == DET4_BOUND as int);
        }
        let det: i128 = a00 * n00 - a01 * n01 + a02 * n02 - a03 * n03;
        if det == 0 {
            return None;
        }
        // adjugate[r][c] = (-1)^(r + c) * minor(c, r); inverse = adjugate / det.
        let e00 = match div_exact(n00, det) { Some(v) => v, None => { return None; } };
        let e01 = match div_exact(-n10, det) { Some(v) => v, None => { return None; } };
        let e02 = match div_exact(n20, det) { Some(v) => v, None => { return None; } };
        let e03 = match div_exact(-n30, det) { Some(v) => v, None => { return None; } };
        let e10 = match div_exact(-n01, det) { Some(v) => v, None => { return None; } };
        let e11 = match div_exact(n11, det) { Some(v) => v, None => { return None; } };
        let e12 = match div_exact(-n21, det) { Some(v) => v, None => { return None; } };
        let e13 = match div_exact(n31, det) { Some(v) => v, None => { return None; } };
        let e20 = match div_exact(n02, det) { Some(v) => v, None => { return None; } };
        let e21 = match div_exact(-n12, det) { Some(v) => v, None => { return None; } };
        let e22 = match div_exact(n22, det) { Some(v) => v, None => { return None; } };
        let e23 = match div_exact(-n32, det) { Some(v) => v, None => { return None; } };
        let e30 = match div_exact(-n03, det) { Some(v) => v, None => { return None; } };
        let e31 = match div_exact(n13, det) { Some(v) => v, None => { return None; } };
        let e32 = match div_exact(-n23, det) { Some(v) => v, None => { return None; } };
        let e33 = match div_exact(n33, det) { Some(v) => v, None => { return None; } };
        let cand = Mat4 {
            m00: e00, m01: e01, m02: e02, m03: e03,
            m10: e10, m11: e11, m12: e12, m13: e13,
            m20: e20, m21: e21, m22: e22, m23: e23,
            m30: e30, m31: e31, m32: e32, m33: e33,
        };
        let gp = Ghost(PROD_BOUND as int);
        let gi = Ghost(INV_BOUND as int);
        if product_is_identity(self, &cand, gp, gi) && product_is_identity(&cand, self, gi, gp) {
            Some(cand)
        } else {
            None
        }
    }
}

/// A 3x3 integer matrix for planar (2D) transforms; `mRC` is the entry at
/// row `R`, column `C`.
#[derive(Clone, Copy, Debug, PartialEq, Eq, Structural)]
pub struct Mat3 {
    pub m00: i64, pub m01: i64, pub m02: i64,
    pub m10: i64, pub m11: i64, pub m12: i64,
    pub m20: i64, pub m21: i64, pub m22: i64,
}

/// Whether every entry of `m` has magnitude at most `b`.
pub open spec fn mat3_bounded(m: Mat3, b: int) -> bool {
    &&& -b <= m.m00 <= b && -b <= m.m01 <= b && -b <= m.m02 <= b
    &&& -b <= m.m10 <= b && -b <= m.m11 <= b && -b <= m.m12 <= b
    &&& -b <= m.m20 <= b && -b <= m.m21 <= b && -b <= m.m22 <= b
}

/// A planar transform lifted to three dimensions: the plane's two axes and
/// translation fill the outer rows and columns, and the third axis is kept.
pub open spec fn mat4_from_2d(m: Mat3) -> Mat4 {
    Mat4 {
        m00: m.m00, m01: m.m01, m02: 0, m03: m.m02,
        m10: m.m10, m11: m.m11, m12: 0, m13: m.m12,
        m20: 0, m21: 0, m22: 1, m23: 0,
        m30: m.m20, m31: m.m21, m32: 0, m33: m.m22,
    }
}

/// An axis-aligned bounding box.  The empty box is encoded with
/// `min > max` in some coordinate.
#[derive(Clone, Copy, Debug, PartialEq, Eq, Structural)]
pub struct Aabb {
    pub min: Vec3,
    pub max: Vec3,
}

/// Whether the box contains no point at all.
pub open spec fn aabb_is_empty(a: Aabb) -> bool {
    a.min.x > a.max.x || a.min.y > a.max.y || a.min.z > a.max.z
}

/// Whether point `p` lies inside the box (boundary included).
pub open spec fn aabb_contains(a: Aabb, p: Vec3) -> bool {
    &&& a.min.x <= p.x <= a.max.x
    &&& a.min.y <= p.y <= a.max.y
    &&& a.min.z <= p.z <= a.max.z
}

/// Whether both corners of the box have coordinates bounded by `b`.
pub open spec fn aabb_bounded(a: Aabb, b: int) -> bool {
    vec3_bounded(a.min, b) && vec3_bounded(a.max, b)
}

/// The smaller of `a` and `b`.
pub open spec fn imin(a: i64, b: i64) -> i64 {
    if a <= b { a } else { b }
}

/// The larger of `a` and `b`.
pub open spec fn imax(a: i64, b: i64) -> i64 {
    if a <= b { b } else { a }
}

/// The box grown just enough to contain `p` as well.
pub open spec fn aabb_expand_point_spec(a: Aabb, p: Vec3) -> Aabb {
    Aabb {
        min: Vec3 { x: imin(a.min.x, p.x), y: imin(a.min.y, p.y), z: imin(a.min.z, p.z) },
        max: Vec3 { x: imax(a.max.x, p.x), y: imax(a.max.y, p.y), z: imax(a.max.z, p.z) },
    }
}

/// The union of two boxes (smallest box containing both).
pub open spec fn aabb_union_spec(a: Aabb, b: Aabb) -> Aabb {
    Aabb {
        min: Vec3 { x: imin(a.min.x, b.min.x), y: imin(a.min.y, b.min.y), z: imin(a.min.z, b.min.z) },
        max: Vec3 { x: imax(a.max.x, b.max.x), y: imax(a.max.y, b.max.y), z: imax(a.max.z, b.max.z) },
    }
}

/// The eight corners of the box transformed by `m` and re-boxed.
pub open spec fn aabb_transform_spec(a: Aabb, m: Mat4) -> Aabb {
    if aabb_is_empty(a) {
        Aabb::empty_spec()
    } else {
        let c0 = transform_point_spec(m, Vec3 { x: a.min.x, y: a.min.y, z: a.min.z });
        let c1 = transform_point_spec(m, Vec3 { x: a.min.x, y: a.min.y, z: a.max.z });
        let c2 = transform_point_spec(m, Vec3 { x: a.min.x, y: a.max.y, z: a.min.z });
        let c3 = transform_point_spec(m, Vec3 { x: a.min.x, y: a.max.y, z: a.max.z });
        let c4 = transform_point_spec(m, Vec3 { x: a.max.x, y: a.min.y, z: a.min.z });
        let c5 = transform_point_spec(m, Vec3 { x: a.max.x, y: a.min.y, z: a.max.z });
        let c6 = transform_point_spec(m, Vec3 { x: a.max.x, y: a.max.y, z: a.min.z });
        let c7 = transform_point_spec(m, Vec3 { x: a.max.x, y: a.max.y, z: a.max.z });
        let r0 = aabb_expand_point_spec(Aabb::empty_spec(), c0);
        let r1 = aabb_expand_point_spec(r0, c1);
        let r2 = aabb_expand_point_spec(r1, c2);
        let r3 = aabb_expand_point_spec(r2, c3);
        let r4 = aabb_expand_point_spec(r3, c4);
        let r5 = aabb_expand_point_spec(r4, c5);
        let r6 = aabb_expand_point_spec(r5, c6);
        aabb_expand_point_spec(r6, c7)
    }
}

impl Aabb {
    /// The canonical empty box.
    pub open spec fn empty_spec() -> Aabb {
        Aabb {
            min: Vec3 { x: i64::MAX, y: i64::MAX, z: i64::MAX },
            max: Vec3 { x: i64::MIN, y: i64::MIN, z: i64::MIN },
        }
    }

    /// Builds the canonical empty box.
    pub fn empty() -> (r: Aabb)
        ensures
            r == Aabb::empty_spec(),
            aabb_is_empty(r),
    {
        Aabb {
            min: Vec3 { x: i64::MAX, y: i64::MAX, z: i64::MAX },
            max: Vec3 { x: i64::MIN, y: i64::MIN, z: i64::MIN },
        }
    }

    /// Whether the box contains no point.
    pub fn is_empty(&self) -> (r: bool)
        ensures
            r == aabb_is_empty(*self),
    {
        self.min.x > self.max.x || self.min.y > self.max.y || self.min.z > self.max.z
    }

    /// Whether `p` lies inside the box.
    pub fn contains(&self, p: Vec3) -> (r: bool)
        ensures
            r == aabb_contains(*self, p),
    {
        self.min.x <= p.x && p.x <= self.max.x
            && self.min.y <= p.y && p.y <= self.max.y
            && self.min.z <= p.z && p.z <= self.max.z
    }

    /// Grows the box just enough to contain `p`.
    pub fn expand_with_point(&mut self, p: Vec3)
        ensures
            *final(self) == aabb_expand_point_spec(*old(self), p),
            aabb_contains(*final(self), p),
            forall|q: Vec3| aabb_contains(*old(self), q) ==> aabb_contains(*final(self), q),
    {
        self.min.x = if p.x < self.min.x { p.x } else { self.min.x };
        self.min.y = if p.y < self.min.y { p.y } else { self.min.y };
        self.min.z = if p.z < self.min.z { p.z } else { self.min.z };
        self.max.x = if p.x > self.max.x { p.x } else { self.max.x };
        self.max.y = if p.y > self.max.y { p.y } else { self.max.y };
        self.max.z = if p.z > self.max.z { p.z } else { self.max.z };
    }

    /// Grows the box to the union with `other`.
    pub fn expand_with_aabb(&mut self, other: &Aabb)
        ensures
            *final(self) == aabb_union_spec(*old(self), *other),
    {
        self.min.x = if other.min.x < self.min.x { other.min.x } else { self.min.x };
        self.min.y = if other.min.y < self.min.y { other.min.y } else { self.min.y };
        self.min.z = if other.min.z < self.min.z { other.min.z } else { self.min.z };
        self.max.x = if other.max.x > self.max.x { other.max.x } else { self.max.x };
        self.max.y = if other.max.y > self.max.y { other.max.y } else { self.max.y };
        self.max.z = if other.max.z > self.max.z { other.max.z } else { self.max.z };
    }

    /// Replaces the box with the box of its transformed corners.
    pub fn transform(&mut self, m: &Mat4)
        requires
            mat4_bounded(*m, PROD_BOUND as int),
            !aabb_is_empty(*old(self)) ==> aabb_bounded(*old(self), COORD_BOUND as int),
        ensures
            *final(self) == aabb_transform_spec(*old(self), *m),
            !aabb_is_empty(*final(self)) ==> aabb_bounded(*final(self), BOX_BOUND as int),
    {
        if self.is_empty() {
            *self = Aabb::empty();
            return;
        }
        let c0 = transform_point(m, Vec3 { x: self.min.x, y: self.min.y, z: self.min.z });
        let c1 = transform_point(m, Vec3 { x: self.min.x, y: self.min.y, z: self.max.z });
        let c2 = transform_point(m, Vec3 { x: self.min.x, y: self.max.y, z: self.min.z });
        let c3 = transform_point(m, Vec3 { x: self.min.x, y: self.max.y, z: self.max.z });
        let c4 = transform_point(m, Vec3 { x: self.max.x, y: self.min.y, z: self.min.z });
        let c5 = transform_point(m, Vec3 { x: self.max.x, y: self.min.y, z: self.max.z });
        let c6 = transform_point(m, Vec3 { x: self.max.x, y: self.max.y, z: self.min.z });
        let c7 = transform_point(m, Vec3 { x: self.max.x, y: self.max.y, z: self.max.z });
        let mut r = Aabb::empty();
        r.expand_with_point(c0);
        r.expand_with_point(c1);
        r.expand_with_point(c2);
        r.expand_with_point(c3);
        r.expand_with_point(c4);
        r.expand_with_point(c5);
        r.expand_with_point(c6);
        r.expand_with_point(c7);
        *self = r;
    }
}

/// The affine image of point `p` under a matrix with entries bounded by
/// [`PROD_BOUND`]; coordinates of `p` must be bounded by [`COORD_BOUND`].
pub fn transform_point(m: &Mat4, p: Vec3) -> (r: Vec3)
    requires
        mat4_bounded(*m, PROD_BOUND as int),
        vec3_bounded(p, COORD_BOUND as int),
    ensures
        r == transform_point_spec(*m, p),
        vec3_bounded(r, BOX_BOUND as int),
{
    let gm = Ghost(PROD_BOUND as int);
    let gc = Ghost(COORD_BOUND as int);
    Vec3 {
        x: dot4(m.m00, m.m01, m.m02, m.m03, p.x, p.y, p.z, 1, gm, gc),
        y: dot4(m.m10, m.m11, m.m12, m.m13, p.x, p.y, p.z, 1, gm, gc),
        z: dot4(m.m20, m.m21, m.m22, m.m23, p.x, p.y, p.z, 1, gm, gc),
    }
}

} // verus!
