//! Fixed-point vectors and matrices for the vertex transform stage.
//!
//! Entries are milli values (1000 is the real 1.0). A fixed-point product of
//! two milli values divides the wide product by 1000, truncating toward zero,
//! and saturates into the `i64` range; degenerate inputs therefore degrade
//! numerically instead of failing.

use vstd::prelude::*;
use crate::fixp::sat64;
use crate::fixp::tdiv_gen;
use crate::fixp::fxdiv_i128;

verus! {

/// A 2D milli vector (texture coordinates).
#[derive(Clone, Copy, Debug, PartialEq, Eq, Structural)]
pub struct Vec2 {
    pub x: i64,
    pub y: i64,
}

/// A 3D milli vector.
#[derive(Clone, Copy, Debug, PartialEq, Eq, Structural)]
pub struct Vec3 {
    pub x: i64,
    pub y: i64,
    pub z: i64,
}

/// A 4D milli vector (homogeneous coordinates).
#[derive(Clone, Copy, Debug, PartialEq, Eq, Structural)]
pub struct Vec4 {
    pub x: i64,
    pub y: i64,
    pub z: i64,
    pub w: i64,
}

/// A 3x3 milli matrix, row major: `mRC` is row R, column C.
#[derive(Clone, Copy, Debug, PartialEq, Eq, Structural)]
pub struct Mat3 {
    pub m00: i64,
    pub m01: i64,
    pub m02: i64,
    pub m10: i64,
    pub m11: i64,
    pub m12: i64,
    pub m20: i64,
    pub m21: i64,
    pub m22: i64,
}

/// A 4x4 milli matrix, row major.
#[derive(Clone, Copy, Debug, PartialEq, Eq, Structural)]
pub struct Mat4 {
    pub m00: i64,
    pub m01: i64,
    pub m02: i64,
    pub m03: i64,
    pub m10: i64,
    pub m11: i64,
    pub m12: i64,
    pub m13: i64,
    pub m20: i64,
    pub m21: i64,
    pub m22: i64,
    pub m23: i64,
    pub m30: i64,
    pub m31: i64,
    pub m32: i64,
    pub m33: i64,
}

/// The bound within which every matrix entry of a well-formed transform must
/// lie, so that a row-by-vector product never leaves the wide intermediate
/// range.
pub open spec fn entry_bounded(e: int) -> bool {
    -1_000_000_000_000_000 <= e <= 1_000_000_000_000_000
}

/// The tighter bound a matrix must meet to be inverted: within it the
/// determinant expansion stays inside the wide intermediate range.
pub open spec fn entry_small(e: int) -> bool {
    -1_000_000_000 <= e <= 1_000_000_000
}

/// All nine entries within the inversion bound.
pub open spec fn mat3_small(m: Mat3) -> bool {
    entry_small(m.m00 as int) && entry_small(m.m01 as int) && entry_small(m.m02 as int)
        && entry_small(m.m10 as int) && entry_small(m.m11 as int) && entry_small(m.m12 as int)
        && entry_small(m.m20 as int) && entry_small(m.m21 as int) && entry_small(m.m22 as int)
}

/// All nine entries within the entry bound.
pub open spec fn mat3_bounded(m: Mat3) -> bool {
    entry_bounded(m.m00 as int) && entry_bounded(m.m01 as int) && entry_bounded(m.m02 as int)
        && entry_bounded(m.m10 as int) && entry_bounded(m.m11 as int) && entry_bounded(
    m.m12 as int) && entry_bounded(m.m20 as int) && entry_bounded(m.m21 as int) && entry_bounded(
    m.m22 as int)
}

/// All sixteen entries within the entry bound.
pub open spec fn mat4_bounded(m: Mat4) -> bool {
    entry_bounded(m.m00 as int) && entry_bounded(m.m01 as int) && entry_bounded(m.m02 as int)
        && entry_bounded(m.m03 as int) && entry_bounded(m.m10 as int) && entry_bounded(
    m.m11 as int) && entry_bounded(m.m12 as int) && entry_bounded(m.m13 as int) && entry_bounded(
    m.m20 as int) && entry_bounded(m.m21 as int) && entry_bounded(m.m22 as int) && entry_bounded(
    m.m23 as int) && entry_bounded(m.m30 as int) && entry_bounded(m.m31 as int) && entry_bounded(
    m.m32 as int) && entry_bounded(m.m33 as int)
}

/// One row-by-vector fixed-point product of a 4x4 row: the exact integer dot
/// product, scaled down by 1000 with truncation and saturated into `i64`.
pub open spec fn fx_dot4(a0: int, a1: int, a2: int, a3: int, x: int, y: int, z: int, w: int) -> int {
    sat64(tdiv_gen(a0 * x + a1 * y + a2 * z + a3 * w, 1000))
}

/// One row-by-vector fixed-point product of a 3x3 row.
pub open spec fn fx_dot3(a0: int, a1: int, a2: int, x: int, y: int, z: int) -> int {
    sat64(tdiv_gen(a0 * x + a1 * y + a2 * z, 1000))
}

/// Executable 4-entry fixed-point dot product; entries must be bounded, the
/// vector may be anything representable.
fn dot4_exec(a0: i64, a1: i64, a2: i64, a3: i64, x: i64, y: i64, z: i64, w: i64) -> (r: i64)
    requires
        entry_bounded(a0 as int),
        entry_bounded(a1 as int),
        entry_bounded(a2 as int),
        entry_bounded(a3 as int),
    ensures
        r as int == fx_dot4(a0 as int, a1 as int, a2 as int, a3 as int, x as int, y as int,
            z as int, w as int),
{
    proof {
        assert(-10_000_000_000_000_000_000_000_000_000_000_000 <= (a0 as int) * (x as int)
            <= 10_000_000_000_000_000_000_000_000_000_000_000
            && -10_000_000_000_000_000_000_000_000_000_000_000 <= (a1 as int) * (y as int)
            <= 10_000_000_000_000_000_000_000_000_000_000_000
            && -10_000_000_000_000_000_000_000_000_000_000_000 <= (a2 as int) * (z as int)
            <= 10_000_000_000_000_000_000_000_000_000_000_000
            && -10_000_000_000_000_000_000_000_000_000_000_000 <= (a3 as int) * (w as int)
            <= 10_000_000_000_000_000_000_000_000_000_000_000) by (nonlinear_arith)
            requires
                -1_000_000_000_000_000 <= a0 as int <= 1_000_000_000_000_000,
                -1_000_000_000_000_000 <= a1 as int <= 1_000_000_000_000_000,
                -1_000_000_000_000_000 <= a2 as int <= 1_000_000_000_000_000,
                -1_000_000_000_000_000 <= a3 as int <= 1_000_000_000_000_000,
                -10_000_000_000_000_000_000 <= x as int <= 10_000_000_000_000_000_000,
                -10_000_000_000_000_000_000 <= y as int <= 10_000_000_000_000_000_000,
                -10_000_000_000_000_000_000 <= z as int <= 10_000_000_000_000_000_000,
                -10_000_000_000_000_000_000 <= w as int <= 10_000_000_000_000_000_000,
        ;
    }
    let n: i128 = (a0 as i128) * (x as i128) + (a1 as i128) * (y as i128) + (a2 as i128) * (
    z as i128) + (a3 as i128) * (w as i128);
    fxdiv_i128(n, 1000)
}

/// Executable 3-entry fixed-point dot product.
fn dot3_exec(a0: i64, a1: i64, a2: i64, x: i64, y: i64, z: i64) -> (r: i64)
    requires
        entry_bounded(a0 as int),
        entry_bounded(a1 as int),
        entry_bounded(a2 as int),
    ensures
        r as int == fx_dot3(a0 as int, a1 as int, a2 as int, x as int, y as int, z as int),
{
    proof {
        assert(-10_000_000_000_000_000_000_000_000_000_000_000 <= (a0 as int) * (x as int)
            <= 10_000_000_000_000_000_000_000_000_000_000_000
            && -10_000_000_000_000_000_000_000_000_000_000_000 <= (a1 as int) * (y as int)
            <= 10_000_000_000_000_000_000_000_000_000_000_000
            && -10_000_000_000_000_000_000_000_000_000_000_000 <= (a2 as int) * (z as int)
            <= 10_000_000_000_000_000_000_000_000_000_000_000) by (nonlinear_arith)
            requires
                -1_000_000_000_000_000 <= a0 as int <= 1_000_000_000_000_000,
                -1_000_000_000_000_000 <= a1 as int <= 1_000_000_000_000_000,
                -1_000_000_000_000_000 <= a2 as int <= 1_000_000_000_000_000,
                -10_000_000_000_000_000_000 <= x as int <= 10_000_000_000_000_000_000,
                -10_000_000_000_000_000_000 <= y as int <= 10_000_000_000_000_000_000,
                -10_000_000_000_000_000_000 <= z as int <= 10_000_000_000_000_000_000,
        ;
    }
    let n: i128 = (a0 as i128) * (x as i128) + (a1 as i128) * (y as i128) + (a2 as i128) * (
    z as i128);
    fxdiv_i128(n, 1000)
}

/// The fixed-point image of a homogeneous vector under a 4x4 matrix.
pub open spec fn spec_mat4_apply(m: Mat4, v: Vec4) -> Vec4 {
    Vec4 {
        x: fx_dot4(m.m00 as int, m.m01 as int, m.m02 as int, m.m03 as int, v.x as int, v.y as int,
            v.z as int, v.w as int) as i64,
        y: fx_dot4(m.m10 as int, m.m11 as int, m.m12 as int, m.m13 as int, v.x as int, v.y as int,
            v.z as int, v.w as int) as i64,
        z: fx_dot4(m.m20 as int, m.m21 as int, m.m22 as int, m.m23 as int, v.x as int, v.y as int,
            v.z as int, v.w as int) as i64,
        w: fx_dot4(m.m30 as int, m.m31 as int, m.m32 as int, m.m33 as int, v.x as int, v.y as int,
            v.z as int, v.w as int) as i64,
    }
}

/// The fixed-point image of a 3D vector under a 3x3 matrix.
pub open spec fn spec_mat3_apply(m: Mat3, v: Vec3) -> Vec3 {
    Vec3 {
        x: fx_dot3(m.m00 as int, m.m01 as int, m.m02 as int, v.x as int, v.y as int,
            v.z as int) as i64,
        y: fx_dot3(m.m10 as int, m.m11 as int, m.m12 as int, v.x as int, v.y as int,
            v.z as int) as i64,
        z: fx_dot3(m.m20 as int, m.m21 as int, m.m22 as int, v.x as int, v.y as int,
            v.z as int) as i64,
    }
}

impl Mat4 {
    /// The fixed-point identity: 1000 on the diagonal.
    pub open spec fn spec_identity() -> Mat4 {
        Mat4 {
            m00: 1000,
            m01: 0,
            m02: 0,
            m03: 0,
            m10: 0,
            m11: 1000,
            m12: 0,
            m13: 0,
            m20: 0,
            m21: 0,
            m22: 1000,
            m23: 0,
            m30: 0,
            m31: 0,
            m32: 0,
            m33: 1000,
        }
    }

    pub fn identity() -> (m: Mat4)
        ensures
            m == Mat4::spec_identity(),
    {
        Mat4 {
            m00: 1000,
            m01: 0,
            m02: 0,
            m03: 0,
            m10: 0,
            m11: 1000,
            m12: 0,
            m13: 0,
            m20: 0,
            m21: 0,
            m22: 1000,
            m23: 0,
            m30: 0,
            m31: 0,
            m32: 0,
            m33: 1000,
        }
    }

    /// Apply the matrix to a homogeneous vector.
    pub fn apply(&self, v: Vec4) -> (r: Vec4)
        requires
            mat4_bounded(*self),
        ensures
            r == spec_mat4_apply(*self, v),
    {
        Vec4 {
            x: dot4_exec(self.m00, self.m01, self.m02, self.m03, v.x, v.y, v.z, v.w),
            y: dot4_exec(self.m10, self.m11, self.m12, self.m13, v.x, v.y, v.z, v.w),
            z: dot4_exec(self.m20, self.m21, self.m22, self.m23, v.x, v.y, v.z, v.w),
            w: dot4_exec(self.m30, self.m31, self.m32, self.m33, v.x, v.y, v.z, v.w),
        }
    }

    /// The upper-left 3x3 block.
    pub open spec fn spec_upper_left(self) -> Mat3 {
        Mat3 {
            m00: self.m00,
            m01: self.m01,
            m02: self.m02,
            m10: self.m10,
            m11: self.m11,
            m12: self.m12,
            m20: self.m20,
            m21: self.m21,
            m22: self.m22,
        }
    }

    pub fn upper_left(&self) -> (r: Mat3)
        ensures
            r == self.spec_upper_left(),
    {
        Mat3 {
            m00: self.m00,
            m01: self.m01,
            m02: self.m02,
            m10: self.m10,
            m11: self.m11,
            m12: self.m12,
            m20: self.m20,
            m21: self.m21,
            m22: self.m22,
        }
    }
}

impl Mat3 {
    /// The fixed-point identity: 1000 on the diagonal.
    pub open spec fn spec_identity() -> Mat3 {
        Mat3 { m00: 1000, m01: 0, m02: 0, m10: 0, m11: 1000, m12: 0, m20: 0, m21: 0, m22: 1000 }
    }

    pub fn identity() -> (m: Mat3)
        ensures
            m == Mat3::spec_identity(),
    {
        Mat3 { m00: 1000, m01: 0, m02: 0, m10: 0, m11: 1000, m12: 0, m20: 0, m21: 0, m22: 1000 }
    }

    /// The transpose.
    pub open spec fn spec_transpose(self) -> Mat3 {
        Mat3 {
            m00: self.m00,
            m01: self.m10,
            m02: self.m20,
            m10: self.m01,
            m11: self.m11,
            m12: self.m21,
            m20: self.m02,
            m21: self.m12,
            m22: self.m22,
        }
    }

    pub fn transpose(&self) -> (r: Mat3)
        ensures
            r == self.spec_transpose(),
    {
        Mat3 {
            m00: self.m00,
            m01: self.m10,
            m02: self.m20,
            m10: self.m01,
            m11: self.m11,
            m12: self.m21,
            m20: self.m02,
            m21: self.m12,
            m22: self.m22,
        }
    }

    /// The determinant in milli-cubed units (the exact integer expansion, not
    /// rescaled). It is zero exactly when the matrix is singular.
    pub open spec fn spec_det(self) -> int {
        self.m00 as int * (self.m11 as int * (self.m22 as int) - self.m12 as int * (
        self.m21 as int)) - self.m01 as int * (self.m10 as int * (self.m22 as int) - self.m12 as int
            * (self.m20 as int)) + self.m02 as int * (self.m10 as int * (self.m21 as int)
            - self.m11 as int * (self.m20 as int))
    }

    /// Apply the matrix to a vector.
    pub fn apply(&self, v: Vec3) -> (r: Vec3)
        requires
            mat3_bounded(*self),
        ensures
            r == spec_mat3_apply(*self, v),
    {
        Vec3 {
            x: dot3_exec(self.m00, self.m01, self.m02, v.x, v.y, v.z),
            y: dot3_exec(self.m10, self.m11, self.m12, v.x, v.y, v.z),
            z: dot3_exec(self.m20, self.m21, self.m22, v.x, v.y, v.z),
        }
    }
}

/// One entry of the fixed-point inverse: the integer adjugate entry rescaled
/// by the milli factors (adjugate entries are milli-squared, the determinant
/// is milli-cubed, and the result is milli), truncated toward zero and clamped
/// into the entry bound.
pub open spec fn inv_entry(adj: int, det: int) -> int {
    let q = tdiv_gen(adj * 1_000_000, det);
    if q > 1_000_000_000_000_000 {
        1_000_000_000_000_000
    } else if q < -1_000_000_000_000_000 {
        -1_000_000_000_000_000
    } else {
        q
    }
}

/// The fixed-point inverse of a 3x3 matrix: the rescaled adjugate over the
/// determinant, entry-clamped; a singular matrix falls back to the identity.
pub open spec fn spec_mat3_inverse(m: Mat3) -> Mat3 {
    let det = m.spec_det();
    if det == 0 {
        Mat3::spec_identity()
    } else {
        Mat3 {
            m00: inv_entry(m.m11 as int * (m.m22 as int) - m.m12 as int * (m.m21 as int), det) as i64,
            m01: inv_entry(-(m.m01 as int * (m.m22 as int) - m.m02 as int * (m.m21 as int)), det) as i64,
            m02: inv_entry(m.m01 as int * (m.m12 as int) - m.m02 as int * (m.m11 as int), det) as i64,
            m10: inv_entry(-(m.m10 as int * (m.m22 as int) - m.m12 as int * (m.m20 as int)), det) as i64,
            m11: inv_entry(m.m00 as int * (m.m22 as int) - m.m02 as int * (m.m20 as int), det) as i64,
            m12: inv_entry(-(m.m00 as int * (m.m12 as int) - m.m02 as int * (m.m10 as int)), det) as i64,
            m20: inv_entry(m.m10 as int * (m.m21 as int) - m.m11 as int * (m.m20 as int), det) as i64,
            m21: inv_entry(-(m.m00 as int * (m.m21 as int) - m.m01 as int * (m.m20 as int)), det) as i64,
            m22: inv_entry(m.m00 as int * (m.m11 as int) - m.m01 as int * (m.m10 as int), det) as i64,
        }
    }
}

/// One executable inverse entry.
fn inv_entry_exec(adj: i128, det: i128) -> (r: i64)
    requires
        det != 0,
        -4_000_000_000_000_000_000_000_000 <= adj <= 4_000_000_000_000_000_000_000_000,
        -8_000_000_000_000_000_000_000_000_000_000_000 <= det
            <= 8_000_000_000_000_000_000_000_000_000_000_000,
    ensures
        r as int == inv_entry(adj as int, det as int),
{
    let q: i64 = fxdiv_i128(adj * 1_000_000, det);
    if q > 1_000_000_000_000_000 {
        1_000_000_000_000_000
    } else if q < -1_000_000_000_000_000 {
        -1_000_000_000_000_000
    } else {
        q
    }
}

/// The fixed-point inverse, with the identity fallback for a singular matrix.
pub fn mat3_inverse(m: &Mat3) -> (r: Mat3)
    requires
        mat3_small(*m),
    ensures
        r == spec_mat3_inverse(*m),
        mat3_bounded(r),
{
    proof {
        lemma_inverse_bounded(*m);
        assert forall|a: int, b: int|
            entry_small(a) && entry_small(b) implies -1_000_000_000_000_000_000 <= #[trigger] (a
            * b) <= 1_000_000_000_000_000_000 by {
            assert(-1_000_000_000_000_000_000 <= a * b <= 1_000_000_000_000_000_000)
                by (nonlinear_arith)
                requires
                    entry_small(a),
                    entry_small(b),
            ;
        }
        assert forall|a: int, c: int|
            entry_small(a) && -2_000_000_000_000_000_000 <= c <= 2_000_000_000_000_000_000
            implies -2_000_000_000_000_000_000_000_000_000 <= #[trigger] (a * c)
            <= 2_000_000_000_000_000_000_000_000_000 by {
            assert(-2_000_000_000_000_000_000_000_000_000 <= a * c
                <= 2_000_000_000_000_000_000_000_000_000) by (nonlinear_arith)
                requires
                    entry_small(a),
                    -2_000_000_000_000_000_000 <= c <= 2_000_000_000_000_000_000,
            ;
        }
    }
    let c00: i128 = (m.m11 as i128) * (m.m22 as i128) - (m.m12 as i128) * (m.m21 as i128);
    let c01: i128 = (m.m01 as i128) * (m.m22 as i128) - (m.m02 as i128) * (m.m21 as i128);
    let c02: i128 = (m.m01 as i128) * (m.m12 as i128) - (m.m02 as i128) * (m.m11 as i128);
    let c10: i128 = (m.m10 as i128) * (m.m22 as i128) - (m.m12 as i128) * (m.m20 as i128);
    let c11: i128 = (m.m00 as i128) * (m.m22 as i128) - (m.m02 as i128) * (m.m20 as i128);
    let c12: i128 = (m.m00 as i128) * (m.m12 as i128) - (m.m02 as i128) * (m.m10 as i128);
    let c20: i128 = (m.m10 as i128) * (m.m21 as i128) - (m.m11 as i128) * (m.m20 as i128);
    let c21: i128 = (m.m00 as i128) * (m.m21 as i128) - (m.m01 as i128) * (m.m20 as i128);
    let c22: i128 = (m.m00 as i128) * (m.m11 as i128) - (m.m01 as i128) * (m.m10 as i128);
    let det: i128 = (m.m00 as i128) * c00 - (m.m01 as i128) * c10 + (m.m02 as i128) * c20;
    proof {
        assert(det as int == m.spec_det());
    }
    if det == 0 {
        Mat3::identity()
    } else {
        Mat3 {
            m00: inv_entry_exec(c00, det),
            m01: inv_entry_exec(-c01, det),
            m02: inv_entry_exec(c02, det),
            m10: inv_entry_exec(-c10, det),
            m11: inv_entry_exec(c11, det),
            m12: inv_entry_exec(-c12, det),
            m20: inv_entry_exec(c20, det),
            m21: inv_entry_exec(-c21, det),
            m22: inv_entry_exec(c22, det),
        }
    }
}

/// Every entry of the fixed-point inverse lies within the entry bound, by the
/// clamp in `inv_entry` and the identity fallback.
proof fn lemma_inverse_bounded(m: Mat3)
    ensures
        mat3_bounded(spec_mat3_inverse(m)),
{
}

} // verus!
