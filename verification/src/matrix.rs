//! 4x4 fixed-point matrices for affine transforms of points and vectors.
//!
//! Entry `mRC` sits in row `R`, column `C`; the translation lives in column 3.
//! The transform functions treat the matrix as affine (bottom row `0 0 0 1`),
//! which every constructor here establishes.

use vstd::prelude::*;
use crate::fixed::{fmul_s, lemma_fmul_one, lemma_tdiv_bound, SCALE};
use crate::vector::{cmul, okv, Vec3, UMAX, VMAX};

verus! {

/// A 4x4 matrix of fixed-point scalars.
#[derive(Clone, Copy, Debug, PartialEq, Eq, Structural)]
pub struct Matrix4 {
    pub m00: i64,
    pub m01: i64,
    pub m02: i64,
    pub m03: i64,
    pub m10: i64,
    pub m11: i64,
    pub m12: i64,
    pub m13: i64,
    pub m20: i64,
    pub m21: i64,
    pub m22: i64,
    pub m23: i64,
    pub m30: i64,
    pub m31: i64,
    pub m32: i64,
    pub m33: i64,
}

/// Every entry of `m` lies in `[-b, b]`.
pub open spec fn okm(m: Matrix4, b: i64) -> bool {
    &&& -b <= m.m00 <= b && -b <= m.m01 <= b && -b <= m.m02 <= b && -b <= m.m03 <= b
    &&& -b <= m.m10 <= b && -b <= m.m11 <= b && -b <= m.m12 <= b && -b <= m.m13 <= b
    &&& -b <= m.m20 <= b && -b <= m.m21 <= b && -b <= m.m22 <= b && -b <= m.m23 <= b
    &&& -b <= m.m30 <= b && -b <= m.m31 <= b && -b <= m.m32 <= b && -b <= m.m33 <= b
}

/// The x component of an affine point transform.
pub open spec fn tp_x_s(m: Matrix4, p: Vec3) -> int {
    fmul_s(m.m00 as int, p.x as int) + fmul_s(m.m01 as int, p.y as int) + fmul_s(
        m.m02 as int,
        p.z as int,
    ) + m.m03
}

/// The y component of an affine point transform.
pub open spec fn tp_y_s(m: Matrix4, p: Vec3) -> int {
    fmul_s(m.m10 as int, p.x as int) + fmul_s(m.m11 as int, p.y as int) + fmul_s(
        m.m12 as int,
        p.z as int,
    ) + m.m13
}

/// The z component of an affine point transform.
pub open spec fn tp_z_s(m: Matrix4, p: Vec3) -> int {
    fmul_s(m.m20 as int, p.x as int) + fmul_s(m.m21 as int, p.y as int) + fmul_s(
        m.m22 as int,
        p.z as int,
    ) + m.m23
}

/// The x component of a vector transform (no translation).
pub open spec fn tv_x_s(m: Matrix4, v: Vec3) -> int {
    fmul_s(m.m00 as int, v.x as int) + fmul_s(m.m01 as int, v.y as int) + fmul_s(
        m.m02 as int,
        v.z as int,
    )
}

/// The y component of a vector transform (no translation).
pub open spec fn tv_y_s(m: Matrix4, v: Vec3) -> int {
    fmul_s(m.m10 as int, v.x as int) + fmul_s(m.m11 as int, v.y as int) + fmul_s(
        m.m12 as int,
        v.z as int,
    )
}

/// The z component of a vector transform (no translation).
pub open spec fn tv_z_s(m: Matrix4, v: Vec3) -> int {
    fmul_s(m.m20 as int, v.x as int) + fmul_s(m.m21 as int, v.y as int) + fmul_s(
        m.m22 as int,
        v.z as int,
    )
}

/// The transformed point, as a value.
pub open spec fn tp_vec_s(m: Matrix4, p: Vec3) -> Vec3 {
    Vec3 { x: tp_x_s(m, p) as i64, y: tp_y_s(m, p) as i64, z: tp_z_s(m, p) as i64 }
}

/// The transformed vector, as a value.
pub open spec fn tv_vec_s(m: Matrix4, v: Vec3) -> Vec3 {
    Vec3 { x: tv_x_s(m, v) as i64, y: tv_y_s(m, v) as i64, z: tv_z_s(m, v) as i64 }
}

/// The matrix with rows and columns exchanged, as a value.
pub open spec fn transpose_s(m: Matrix4) -> Matrix4 {
    Matrix4 {
        m00: m.m00, m01: m.m10, m02: m.m20, m03: m.m30,
        m10: m.m01, m11: m.m11, m12: m.m21, m13: m.m31,
        m20: m.m02, m21: m.m12, m22: m.m22, m23: m.m32,
        m30: m.m03, m31: m.m13, m32: m.m23, m33: m.m33,
    }
}

/// The matrix that translates every point by `d`.
pub open spec fn translation_s(d: Vec3) -> Matrix4 {
    Matrix4 {
        m00: SCALE, m01: 0, m02: 0, m03: d.x,
        m10: 0, m11: SCALE, m12: 0, m13: d.y,
        m20: 0, m21: 0, m22: SCALE, m23: d.z,
        m30: 0, m31: 0, m32: 0, m33: SCALE,
    }
}

/// The matrix that scales the three axes by `sx`, `sy`, `sz`.
pub open spec fn nonuniform_scale_s(sx: i64, sy: i64, sz: i64) -> Matrix4 {
    Matrix4 {
        m00: sx, m01: 0, m02: 0, m03: 0,
        m10: 0, m11: sy, m12: 0, m13: 0,
        m20: 0, m21: 0, m22: sz, m23: 0,
        m30: 0, m31: 0, m32: 0, m33: SCALE,
    }
}

impl Matrix4 {
    /// The identity transform.
    pub fn identity() -> (r: Matrix4)
        ensures
            r == nonuniform_scale_s(SCALE, SCALE, SCALE),
    {
        Matrix4 {
            m00: SCALE, m01: 0, m02: 0, m03: 0,
            m10: 0, m11: SCALE, m12: 0, m13: 0,
            m20: 0, m21: 0, m22: SCALE, m23: 0,
            m30: 0, m31: 0, m32: 0, m33: SCALE,
        }
    }

    /// The transform that translates by `d`.
    pub fn from_translation(d: Vec3) -> (r: Matrix4)
        ensures
            r == translation_s(d),
    {
        Matrix4 {
            m00: SCALE, m01: 0, m02: 0, m03: d.x,
            m10: 0, m11: SCALE, m12: 0, m13: d.y,
            m20: 0, m21: 0, m22: SCALE, m23: d.z,
            m30: 0, m31: 0, m32: 0, m33: SCALE,
        }
    }

    /// The transform that scales uniformly by `s`.
    pub fn from_scale(s: i64) -> (r: Matrix4)
        ensures
            r == nonuniform_scale_s(s, s, s),
    {
        Matrix4 {
            m00: s, m01: 0, m02: 0, m03: 0,
            m10: 0, m11: s, m12: 0, m13: 0,
            m20: 0, m21: 0, m22: s, m23: 0,
            m30: 0, m31: 0, m32: 0, m33: SCALE,
        }
    }

    /// The transform that scales each axis independently.
    pub fn from_nonuniform_scale(sx: i64, sy: i64, sz: i64) -> (r: Matrix4)
        ensures
            r == nonuniform_scale_s(sx, sy, sz),
    {
        Matrix4 {
            m00: sx, m01: 0, m02: 0, m03: 0,
            m10: 0, m11: sy, m12: 0, m13: 0,
            m20: 0, m21: 0, m22: sz, m23: 0,
            m30: 0, m31: 0, m32: 0, m33: SCALE,
        }
    }

    /// The matrix with rows and columns exchanged.
    pub fn transpose(&self) -> (r: Matrix4)
        ensures
            r == transpose_s(*self),
    {
        Matrix4 {
            m00: self.m00, m01: self.m10, m02: self.m20, m03: self.m30,
            m10: self.m01, m11: self.m11, m12: self.m21, m13: self.m31,
            m20: self.m02, m21: self.m12, m22: self.m22, m23: self.m32,
            m30: self.m03, m31: self.m13, m32: self.m23, m33: self.m33,
        }
    }

    /// Apply the affine transform to a point (the translation applies).
    pub fn transform_point(&self, p: Vec3) -> (r: Vec3)
        requires
            okm(*self, VMAX),
            okv(p, VMAX),
        ensures
            r.x == tp_x_s(*self, p),
            r.y == tp_y_s(*self, p),
            r.z == tp_z_s(*self, p),
            okv(r, 0x4000_0000_0000_0000),
            okm(*self, UMAX) && okv(p, UMAX) ==> okv(r, 0x4_0000_0000),
    {
        proof {
            if okm(*self, UMAX) && okv(p, UMAX) {
                lemma_row_bound(*self, p);
            }
        }
        Vec3 {
            x: cmul(self.m00, p.x) + cmul(self.m01, p.y) + cmul(self.m02, p.z) + self.m03,
            y: cmul(self.m10, p.x) + cmul(self.m11, p.y) + cmul(self.m12, p.z) + self.m13,
            z: cmul(self.m20, p.x) + cmul(self.m21, p.y) + cmul(self.m22, p.z) + self.m23,
        }
    }

    /// Apply the transform to a vector (the translation does not apply).
    pub fn transform_vector(&self, v: Vec3) -> (r: Vec3)
        requires
            okm(*self, VMAX),
            okv(v, VMAX),
        ensures
            r.x == tv_x_s(*self, v),
            r.y == tv_y_s(*self, v),
            r.z == tv_z_s(*self, v),
            okv(r, 0x4000_0000_0000_0000),
            okm(*self, UMAX) && okv(v, UMAX) ==> okv(r, 0x4_0000_0000),
    {
        proof {
            if okm(*self, UMAX) && okv(v, UMAX) {
                lemma_row_bound(*self, v);
            }
        }
        Vec3 {
            x: cmul(self.m00, v.x) + cmul(self.m01, v.y) + cmul(self.m02, v.z),
            y: cmul(self.m10, v.x) + cmul(self.m11, v.y) + cmul(self.m12, v.z),
            z: cmul(self.m20, v.x) + cmul(self.m21, v.y) + cmul(self.m22, v.z),
        }
    }
}

/// With unit-scale entries and a unit-scale argument, every product in a row
/// stays below `2^32`, so a transformed component stays below `2^34`.
proof fn lemma_row_bound(m: Matrix4, p: Vec3)
    requires
        okm(m, UMAX),
        okv(p, UMAX),
    ensures
        -0x1_0000_0000 <= fmul_s(m.m00 as int, p.x as int) <= 0x1_0000_0000,
        -0x1_0000_0000 <= fmul_s(m.m01 as int, p.y as int) <= 0x1_0000_0000,
        -0x1_0000_0000 <= fmul_s(m.m02 as int, p.z as int) <= 0x1_0000_0000,
        -0x1_0000_0000 <= fmul_s(m.m10 as int, p.x as int) <= 0x1_0000_0000,
        -0x1_0000_0000 <= fmul_s(m.m11 as int, p.y as int) <= 0x1_0000_0000,
        -0x1_0000_0000 <= fmul_s(m.m12 as int, p.z as int) <= 0x1_0000_0000,
        -0x1_0000_0000 <= fmul_s(m.m20 as int, p.x as int) <= 0x1_0000_0000,
        -0x1_0000_0000 <= fmul_s(m.m21 as int, p.y as int) <= 0x1_0000_0000,
        -0x1_0000_0000 <= fmul_s(m.m22 as int, p.z as int) <= 0x1_0000_0000,
{
    lemma_term_bound(m.m00 as int, p.x as int);
    lemma_term_bound(m.m01 as int, p.y as int);
    lemma_term_bound(m.m02 as int, p.z as int);
    lemma_term_bound(m.m10 as int, p.x as int);
    lemma_term_bound(m.m11 as int, p.y as int);
    lemma_term_bound(m.m12 as int, p.z as int);
    lemma_term_bound(m.m20 as int, p.x as int);
    lemma_term_bound(m.m21 as int, p.y as int);
    lemma_term_bound(m.m22 as int, p.z as int);
}

/// One unit-scale product stays below `2^32`.
proof fn lemma_term_bound(a: int, b: int)
    requires
        -UMAX <= a <= UMAX,
        -UMAX <= b <= UMAX,
    ensures
        -0x1_0000_0000 <= fmul_s(a, b) <= 0x1_0000_0000,
{
    crate::fixed::lemma_abs_mul_le(a, b, UMAX as int, UMAX as int);
    lemma_tdiv_bound(a * b, SCALE as int, 0x1_0000_0000);
}

/// A translation moves every point by exactly `d` and leaves every vector
/// unchanged.
pub proof fn lemma_translation_exact(d: Vec3, p: Vec3)
    ensures
        tp_x_s(translation_s(d), p) == p.x + d.x,
        tp_y_s(translation_s(d), p) == p.y + d.y,
        tp_z_s(translation_s(d), p) == p.z + d.z,
        tv_x_s(translation_s(d), p) == p.x,
        tv_y_s(translation_s(d), p) == p.y,
        tv_z_s(translation_s(d), p) == p.z,
{
    lemma_fmul_one(p.x as int);
    lemma_fmul_one(p.y as int);
    lemma_fmul_one(p.z as int);
}

/// A scale multiplies each component of a point, and of a vector, by the
/// matching factor.
pub proof fn lemma_scale_exact(sx: i64, sy: i64, sz: i64, p: Vec3)
    ensures
        tp_x_s(nonuniform_scale_s(sx, sy, sz), p) == fmul_s(sx as int, p.x as int),
        tp_y_s(nonuniform_scale_s(sx, sy, sz), p) == fmul_s(sy as int, p.y as int),
        tp_z_s(nonuniform_scale_s(sx, sy, sz), p) == fmul_s(sz as int, p.z as int),
        tv_x_s(nonuniform_scale_s(sx, sy, sz), p) == fmul_s(sx as int, p.x as int),
        tv_y_s(nonuniform_scale_s(sx, sy, sz), p) == fmul_s(sy as int, p.y as int),
        tv_z_s(nonuniform_scale_s(sx, sy, sz), p) == fmul_s(sz as int, p.z as int),
{
}

} // verus!
