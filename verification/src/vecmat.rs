//! Fixed-point vectors and matrices for the transform stage.
//!
//! Vectors hold 16.16 fixed-point components; matrices are row-major with
//! named entries (`mRC` is row `R`, column `C`). All products saturate into
//! the fixed-point window, like the scalar operations they are built from.

use vstd::prelude::*;
use crate::fixed::{
    fx_add, fx_div, fx_mul, fx_sub, fx_clamp_wide, isqrt_u128, lemma_sqrt_floor_unique,
    s_fx_add, s_fx_clamp, s_fx_div, s_fx_mul, s_fx_sub, fx_ok, sqrt_floor, FX_ONE,
};

verus! {

/// A 2D fixed-point vector.
#[derive(Clone, Copy, Debug, PartialEq, Eq, Structural)]
pub struct Vec2Fx {
    pub x: i64,
    pub y: i64,
}

/// A 3D fixed-point vector.
#[derive(Clone, Copy, Debug, PartialEq, Eq, Structural)]
pub struct Vec3Fx {
    pub x: i64,
    pub y: i64,
    pub z: i64,
}

/// A 4D fixed-point vector (homogeneous coordinates).
#[derive(Clone, Copy, Debug, PartialEq, Eq, Structural)]
pub struct Vec4Fx {
    pub x: i64,
    pub y: i64,
    pub z: i64,
    pub w: i64,
}

/// A 3x3 fixed-point matrix, row-major.
#[derive(Clone, Copy, Debug, PartialEq, Eq, Structural)]
pub struct Mat3Fx {
    pub m00: i64, pub m01: i64, pub m02: i64,
    pub m10: i64, pub m11: i64, pub m12: i64,
    pub m20: i64, pub m21: i64, pub m22: i64,
}

/// A 4x4 fixed-point matrix, row-major.
#[derive(Clone, Copy, Debug, PartialEq, Eq, Structural)]
pub struct Mat4Fx {
    pub m00: i64, pub m01: i64, pub m02: i64, pub m03: i64,
    pub m10: i64, pub m11: i64, pub m12: i64, pub m13: i64,
    pub m20: i64, pub m21: i64, pub m22: i64, pub m23: i64,
    pub m30: i64, pub m31: i64, pub m32: i64, pub m33: i64,
}

impl Vec2Fx {
    /// Build a 2D vector.
    pub fn new(x: i64, y: i64) -> (v: Vec2Fx)
        ensures
            v == (Vec2Fx { x, y }),
    {
        Vec2Fx { x, y }
    }
}

impl Vec3Fx {
    /// Build a 3D vector.
    pub fn new(x: i64, y: i64, z: i64) -> (v: Vec3Fx)
        ensures
            v == (Vec3Fx { x, y, z }),
    {
        Vec3Fx { x, y, z }
    }

    /// The zero vector.
    pub fn zero() -> (v: Vec3Fx)
        ensures
            v == (Vec3Fx { x: 0i64, y: 0i64, z: 0i64 }),
    {
        Vec3Fx { x: 0, y: 0, z: 0 }
    }
}

/// Four-term saturating fixed-point dot product.
pub open spec fn s_dot4(
    a0: int, b0: int, a1: int, b1: int, a2: int, b2: int, a3: int, b3: int,
) -> int {
    s_fx_clamp(s_fx_mul(a0, b0) + s_fx_mul(a1, b1) + s_fx_mul(a2, b2) + s_fx_mul(a3, b3))
}

/// Three-term saturating fixed-point dot product.
pub open spec fn s_dot3(a0: int, b0: int, a1: int, b1: int, a2: int, b2: int) -> int {
    s_fx_clamp(s_fx_mul(a0, b0) + s_fx_mul(a1, b1) + s_fx_mul(a2, b2))
}

/// Four-term saturating fixed-point dot product.
pub fn dot4(a0: i64, b0: i64, a1: i64, b1: i64, a2: i64, b2: i64, a3: i64, b3: i64) -> (r: i64)
    ensures
        r == s_dot4(a0 as int, b0 as int, a1 as int, b1 as int, a2 as int, b2 as int, a3 as int,
            b3 as int),
        fx_ok(r as int),
{
    let p0 = fx_mul(a0, b0);
    let p1 = fx_mul(a1, b1);
    let p2 = fx_mul(a2, b2);
    let p3 = fx_mul(a3, b3);
    fx_clamp_wide(p0 as i128 + p1 as i128 + p2 as i128 + p3 as i128)
}

/// Three-term saturating fixed-point dot product.
pub fn dot3(a0: i64, b0: i64, a1: i64, b1: i64, a2: i64, b2: i64) -> (r: i64)
    ensures
        r == s_dot3(a0 as int, b0 as int, a1 as int, b1 as int, a2 as int, b2 as int),
        fx_ok(r as int),
{
    let p0 = fx_mul(a0, b0);
    let p1 = fx_mul(a1, b1);
    let p2 = fx_mul(a2, b2);
    fx_clamp_wide(p0 as i128 + p1 as i128 + p2 as i128)
}

/// The 4x4 matrix product, entry by entry.
pub open spec fn s_mat4_mul(a: Mat4Fx, b: Mat4Fx) -> Mat4Fx {
    Mat4Fx {
        m00: s_dot4(a.m00 as int, b.m00 as int, a.m01 as int, b.m10 as int, a.m02 as int,
            b.m20 as int, a.m03 as int, b.m30 as int) as i64,
        m01: s_dot4(a.m00 as int, b.m01 as int, a.m01 as int, b.m11 as int, a.m02 as int,
            b.m21 as int, a.m03 as int, b.m31 as int) as i64,
        m02: s_dot4(a.m00 as int, b.m02 as int, a.m01 as int, b.m12 as int, a.m02 as int,
            b.m22 as int, a.m03 as int, b.m32 as int) as i64,
        m03: s_dot4(a.m00 as int, b.m03 as int, a.m01 as int, b.m13 as int, a.m02 as int,
            b.m23 as int, a.m03 as int, b.m33 as int) as i64,
        m10: s_dot4(a.m10 as int, b.m00 as int, a.m11 as int, b.m10 as int, a.m12 as int,
            b.m20 as int, a.m13 as int, b.m30 as int) as i64,
        m11: s_dot4(a.m10 as int, b.m01 as int, a.m11 as int, b.m11 as int, a.m12 as int,
            b.m21 as int, a.m13 as int, b.m31 as int) as i64,
        m12: s_dot4(a.m10 as int, b.m02 as int, a.m11 as int, b.m12 as int, a.m12 as int,
            b.m22 as int, a.m13 as int, b.m32 as int) as i64,
        m13: s_dot4(a.m10 as int, b.m03 as int, a.m11 as int, b.m13 as int, a.m12 as int,
            b.m23 as int, a.m13 as int, b.m33 as int) as i64,
        m20: s_dot4(a.m20 as int, b.m00 as int, a.m21 as int, b.m10 as int, a.m22 as int,
            b.m20 as int, a.m23 as int, b.m30 as int) as i64,
        m21: s_dot4(a.m20 as int, b.m01 as int, a.m21 as int, b.m11 as int, a.m22 as int,
            b.m21 as int, a.m23 as int, b.m31 as int) as i64,
        m22: s_dot4(a.m20 as int, b.m02 as int, a.m21 as int, b.m12 as int, a.m22 as int,
            b.m22 as int, a.m23 as int, b.m32 as int) as i64,
        m23: s_dot4(a.m20 as int, b.m03 as int, a.m21 as int, b.m13 as int, a.m22 as int,
            b.m23 as int, a.m23 as int, b.m33 as int) as i64,
        m30: s_dot4(a.m30 as int, b.m00 as int, a.m31 as int, b.m10 as int, a.m32 as int,
            b.m20 as int, a.m33 as int, b.m30 as int) as i64,
        m31: s_dot4(a.m30 as int, b.m01 as int, a.m31 as int, b.m11 as int, a.m32 as int,
            b.m21 as int, a.m33 as int, b.m31 as int) as i64,
        m32: s_dot4(a.m30 as int, b.m02 as int, a.m31 as int, b.m12 as int, a.m32 as int,
            b.m22 as int, a.m33 as int, b.m32 as int) as i64,
        m33: s_dot4(a.m30 as int, b.m03 as int, a.m31 as int, b.m13 as int, a.m32 as int,
            b.m23 as int, a.m33 as int, b.m33 as int) as i64,
    }
}

/// A 4x4 matrix applied to a homogeneous vector.
pub open spec fn s_mat4_mul_vec4(m: Mat4Fx, v: Vec4Fx) -> Vec4Fx {
    Vec4Fx {
        x: s_dot4(m.m00 as int, v.x as int, m.m01 as int, v.y as int, m.m02 as int, v.z as int,
            m.m03 as int, v.w as int) as i64,
        y: s_dot4(m.m10 as int, v.x as int, m.m11 as int, v.y as int, m.m12 as int, v.z as int,
            m.m13 as int, v.w as int) as i64,
        z: s_dot4(m.m20 as int, v.x as int, m.m21 as int, v.y as int, m.m22 as int, v.z as int,
            m.m23 as int, v.w as int) as i64,
        w: s_dot4(m.m30 as int, v.x as int, m.m31 as int, v.y as int, m.m32 as int, v.z as int,
            m.m33 as int, v.w as int) as i64,
    }
}

/// A 3x3 matrix applied to a vector.
pub open spec fn s_mat3_mul_vec3(m: Mat3Fx, v: Vec3Fx) -> Vec3Fx {
    Vec3Fx {
        x: s_dot3(m.m00 as int, v.x as int, m.m01 as int, v.y as int, m.m02 as int,
            v.z as int) as i64,
        y: s_dot3(m.m10 as int, v.x as int, m.m11 as int, v.y as int, m.m12 as int,
            v.z as int) as i64,
        z: s_dot3(m.m20 as int, v.x as int, m.m21 as int, v.y as int, m.m22 as int,
            v.z as int) as i64,
    }
}

/// The identity 4x4 matrix.
pub open spec fn s_mat4_identity() -> Mat4Fx {
    Mat4Fx {
        m00: FX_ONE, m01: 0i64, m02: 0i64, m03: 0i64,
        m10: 0i64, m11: FX_ONE, m12: 0i64, m13: 0i64,
        m20: 0i64, m21: 0i64, m22: FX_ONE, m23: 0i64,
        m30: 0i64, m31: 0i64, m32: 0i64, m33: FX_ONE,
    }
}

/// The identity 3x3 matrix.
pub open spec fn s_mat3_identity() -> Mat3Fx {
    Mat3Fx {
        m00: FX_ONE, m01: 0i64, m02: 0i64,
        m10: 0i64, m11: FX_ONE, m12: 0i64,
        m20: 0i64, m21: 0i64, m22: FX_ONE,
    }
}

/// The transpose of a 3x3 matrix.
pub open spec fn s_mat3_transpose(m: Mat3Fx) -> Mat3Fx {
    Mat3Fx {
        m00: m.m00, m01: m.m10, m02: m.m20,
        m10: m.m01, m11: m.m11, m12: m.m21,
        m20: m.m02, m21: m.m12, m22: m.m22,
    }
}

/// The upper-left 3x3 block of a 4x4 matrix.
pub open spec fn s_mat3_from_mat4(m: Mat4Fx) -> Mat3Fx {
    Mat3Fx {
        m00: m.m00, m01: m.m01, m02: m.m02,
        m10: m.m10, m11: m.m11, m12: m.m12,
        m20: m.m20, m21: m.m21, m22: m.m22,
    }
}

/// The saturating fixed-point determinant of a 3x3 matrix.
pub open spec fn s_mat3_det(m: Mat3Fx) -> int {
    s_fx_clamp(
        s_fx_mul(m.m00 as int, s_fx_sub(s_fx_mul(m.m11 as int, m.m22 as int),
            s_fx_mul(m.m12 as int, m.m21 as int)))
        - s_fx_mul(m.m01 as int, s_fx_sub(s_fx_mul(m.m10 as int, m.m22 as int),
            s_fx_mul(m.m12 as int, m.m20 as int)))
        + s_fx_mul(m.m02 as int, s_fx_sub(s_fx_mul(m.m10 as int, m.m21 as int),
            s_fx_mul(m.m11 as int, m.m20 as int))),
    )
}

/// One cofactor-over-determinant entry of the 3x3 inverse.
pub open spec fn s_inv_entry(p0: int, p1: int, q0: int, q1: int, det: int) -> int {
    s_fx_div(s_fx_sub(s_fx_mul(p0, p1), s_fx_mul(q0, q1)), det)
}

/// The fixed-point inverse of a 3x3 matrix with nonzero determinant:
/// the adjugate divided by the determinant, entry by entry.
pub open spec fn s_mat3_inverse(m: Mat3Fx) -> Mat3Fx {
    let det = s_mat3_det(m);
    Mat3Fx {
        m00: s_inv_entry(m.m11 as int, m.m22 as int, m.m12 as int, m.m21 as int, det) as i64,
        m01: s_inv_entry(m.m02 as int, m.m21 as int, m.m01 as int, m.m22 as int, det) as i64,
        m02: s_inv_entry(m.m01 as int, m.m12 as int, m.m02 as int, m.m11 as int, det) as i64,
        m10: s_inv_entry(m.m12 as int, m.m20 as int, m.m10 as int, m.m22 as int, det) as i64,
        m11: s_inv_entry(m.m00 as int, m.m22 as int, m.m02 as int, m.m20 as int, det) as i64,
        m12: s_inv_entry(m.m02 as int, m.m10 as int, m.m00 as int, m.m12 as int, det) as i64,
        m20: s_inv_entry(m.m10 as int, m.m21 as int, m.m11 as int, m.m20 as int, det) as i64,
        m21: s_inv_entry(m.m01 as int, m.m20 as int, m.m00 as int, m.m21 as int, det) as i64,
        m22: s_inv_entry(m.m00 as int, m.m11 as int, m.m01 as int, m.m10 as int, det) as i64,
    }
}

impl Mat4Fx {
    /// Build a matrix from its sixteen entries, row-major.
    #[allow(clippy::too_many_arguments)]
    pub fn new(
        m00: i64, m01: i64, m02: i64, m03: i64,
        m10: i64, m11: i64, m12: i64, m13: i64,
        m20: i64, m21: i64, m22: i64, m23: i64,
        m30: i64, m31: i64, m32: i64, m33: i64,
    ) -> (m: Mat4Fx)
        ensures
            m == (Mat4Fx {
                m00, m01, m02, m03,
                m10, m11, m12, m13,
                m20, m21, m22, m23,
                m30, m31, m32, m33,
            }),
    {
        Mat4Fx { m00, m01, m02, m03, m10, m11, m12, m13, m20, m21, m22, m23, m30, m31, m32, m33 }
    }

    /// The identity matrix.
    pub fn identity() -> (m: Mat4Fx)
        ensures
            m == s_mat4_identity(),
    {
        Mat4Fx {
            m00: FX_ONE, m01: 0, m02: 0, m03: 0,
            m10: 0, m11: FX_ONE, m12: 0, m13: 0,
            m20: 0, m21: 0, m22: FX_ONE, m23: 0,
            m30: 0, m31: 0, m32: 0, m33: FX_ONE,
        }
    }
}

/// The 4x4 matrix product.
pub fn mat4_mul(a: &Mat4Fx, b: &Mat4Fx) -> (r: Mat4Fx)
    ensures
        r == s_mat4_mul(*a, *b),
{
    Mat4Fx {
        m00: dot4(a.m00, b.m00, a.m01, b.m10, a.m02, b.m20, a.m03, b.m30),
        m01: dot4(a.m00, b.m01, a.m01, b.m11, a.m02, b.m21, a.m03, b.m31),
        m02: dot4(a.m00, b.m02, a.m01, b.m12, a.m02, b.m22, a.m03, b.m32),
        m03: dot4(a.m00, b.m03, a.m01, b.m13, a.m02, b.m23, a.m03, b.m33),
        m10: dot4(a.m10, b.m00, a.m11, b.m10, a.m12, b.m20, a.m13, b.m30),
        m11: dot4(a.m10, b.m01, a.m11, b.m11, a.m12, b.m21, a.m13, b.m31),
        m12: dot4(a.m10, b.m02, a.m11, b.m12, a.m12, b.m22, a.m13, b.m32),
        m13: dot4(a.m10, b.m03, a.m11, b.m13, a.m12, b.m23, a.m13, b.m33),
        m20: dot4(a.m20, b.m00, a.m21, b.m10, a.m22, b.m20, a.m23, b.m30),
        m21: dot4(a.m20, b.m01, a.m21, b.m11, a.m22, b.m21, a.m23, b.m31),
        m22: dot4(a.m20, b.m02, a.m21, b.m12, a.m22, b.m22, a.m23, b.m32),
        m23: dot4(a.m20, b.m03, a.m21, b.m13, a.m22, b.m23, a.m23, b.m33),
        m30: dot4(a.m30, b.m00, a.m31, b.m10, a.m32, b.m20, a.m33, b.m30),
        m31: dot4(a.m30, b.m01, a.m31, b.m11, a.m32, b.m21, a.m33, b.m31),
        m32: dot4(a.m30, b.m02, a.m31, b.m12, a.m32, b.m22, a.m33, b.m32),
        m33: dot4(a.m30, b.m03, a.m31, b.m13, a.m32, b.m23, a.m33, b.m33),
    }
}

/// A 4x4 matrix applied to a homogeneous vector.
pub fn mat4_mul_vec4(m: &Mat4Fx, v: &Vec4Fx) -> (r: Vec4Fx)
    ensures
        r == s_mat4_mul_vec4(*m, *v),
{
    Vec4Fx {
        x: dot4(m.m00, v.x, m.m01, v.y, m.m02, v.z, m.m03, v.w),
        y: dot4(m.m10, v.x, m.m11, v.y, m.m12, v.z, m.m13, v.w),
        z: dot4(m.m20, v.x, m.m21, v.y, m.m22, v.z, m.m23, v.w),
        w: dot4(m.m30, v.x, m.m31, v.y, m.m32, v.z, m.m33, v.w),
    }
}

/// A 3x3 matrix applied to a vector.
pub fn mat3_mul_vec3(m: &Mat3Fx, v: &Vec3Fx) -> (r: Vec3Fx)
    ensures
        r == s_mat3_mul_vec3(*m, *v),
{
    Vec3Fx {
        x: dot3(m.m00, v.x, m.m01, v.y, m.m02, v.z),
        y: dot3(m.m10, v.x, m.m11, v.y, m.m12, v.z),
        z: dot3(m.m20, v.x, m.m21, v.y, m.m22, v.z),
    }
}

/// The transpose of a 3x3 matrix.
pub fn mat3_transpose(m: &Mat3Fx) -> (r: Mat3Fx)
    ensures
        r == s_mat3_transpose(*m),
{
    Mat3Fx {
        m00: m.m00, m01: m.m10, m02: m.m20,
        m10: m.m01, m11: m.m11, m12: m.m21,
        m20: m.m02, m21: m.m12, m22: m.m22,
    }
}

/// The upper-left 3x3 block of a 4x4 matrix.
pub fn mat3_from_mat4(m: &Mat4Fx) -> (r: Mat3Fx)
    ensures
        r == s_mat3_from_mat4(*m),
{
    Mat3Fx {
        m00: m.m00, m01: m.m01, m02: m.m02,
        m10: m.m10, m11: m.m11, m12: m.m12,
        m20: m.m20, m21: m.m21, m22: m.m22,
    }
}

/// The saturating fixed-point determinant of a 3x3 matrix.
pub fn mat3_det(m: &Mat3Fx) -> (r: i64)
    ensures
        r == s_mat3_det(*m),
{
    let c0 = fx_mul(m.m00, fx_sub(fx_mul(m.m11, m.m22), fx_mul(m.m12, m.m21)));
    let c1 = fx_mul(m.m01, fx_sub(fx_mul(m.m10, m.m22), fx_mul(m.m12, m.m20)));
    let c2 = fx_mul(m.m02, fx_sub(fx_mul(m.m10, m.m21), fx_mul(m.m11, m.m20)));
    fx_clamp_wide(c0 as i128 - c1 as i128 + c2 as i128)
}

fn inv_entry(p0: i64, p1: i64, q0: i64, q1: i64, det: i64) -> (r: i64)
    ensures
        r == s_inv_entry(p0 as int, p1 as int, q0 as int, q1 as int, det as int),
{
    fx_div(fx_sub(fx_mul(p0, p1), fx_mul(q0, q1)), det)
}

/// The fixed-point inverse of a 3x3 matrix: `None` when the determinant
/// is zero, otherwise the adjugate divided by the determinant.
pub fn mat3_inverse(m: &Mat3Fx) -> (r: Option<Mat3Fx>)
    ensures
        s_mat3_det(*m) == 0 <==> r is None,
        s_mat3_det(*m) != 0 ==> r == Some(s_mat3_inverse(*m)),
{
    let det = mat3_det(m);
    if det == 0 {
        None
    } else {
        Some(
            Mat3Fx {
                m00: inv_entry(m.m11, m.m22, m.m12, m.m21, det),
                m01: inv_entry(m.m02, m.m21, m.m01, m.m22, det),
                m02: inv_entry(m.m01, m.m12, m.m02, m.m11, det),
                m10: inv_entry(m.m12, m.m20, m.m10, m.m22, det),
                m11: inv_entry(m.m00, m.m22, m.m02, m.m20, det),
                m12: inv_entry(m.m02, m.m10, m.m00, m.m12, det),
                m20: inv_entry(m.m10, m.m21, m.m11, m.m20, det),
                m21: inv_entry(m.m01, m.m20, m.m00, m.m21, det),
                m22: inv_entry(m.m00, m.m11, m.m01, m.m10, det),
            },
        )
    }
}

/// Componentwise saturating sum of two vectors.
pub open spec fn s_vec3_add(a: Vec3Fx, b: Vec3Fx) -> Vec3Fx {
    Vec3Fx {
        x: s_fx_add(a.x as int, b.x as int) as i64,
        y: s_fx_add(a.y as int, b.y as int) as i64,
        z: s_fx_add(a.z as int, b.z as int) as i64,
    }
}

/// Componentwise saturating difference of two vectors.
pub open spec fn s_vec3_sub(a: Vec3Fx, b: Vec3Fx) -> Vec3Fx {
    Vec3Fx {
        x: s_fx_sub(a.x as int, b.x as int) as i64,
        y: s_fx_sub(a.y as int, b.y as int) as i64,
        z: s_fx_sub(a.z as int, b.z as int) as i64,
    }
}

/// The fixed-point cross product.
pub open spec fn s_vec3_cross(a: Vec3Fx, b: Vec3Fx) -> Vec3Fx {
    Vec3Fx {
        x: s_fx_sub(s_fx_mul(a.y as int, b.z as int), s_fx_mul(a.z as int, b.y as int)) as i64,
        y: s_fx_sub(s_fx_mul(a.z as int, b.x as int), s_fx_mul(a.x as int, b.z as int)) as i64,
        z: s_fx_sub(s_fx_mul(a.x as int, b.y as int), s_fx_mul(a.y as int, b.x as int)) as i64,
    }
}

/// The Euclidean norm of a vector whose components are first saturated
/// into the fixed-point window; the result is again 16.16 fixed point.
pub open spec fn s_vec3_norm(v: Vec3Fx) -> int {
    let x = s_fx_clamp(v.x as int);
    let y = s_fx_clamp(v.y as int);
    let z = s_fx_clamp(v.z as int);
    sqrt_floor(x * x + y * y + z * z)
}

/// The unit vector along `v`, or zero when `v` has norm zero.
pub open spec fn s_vec3_normalize(v: Vec3Fx) -> Vec3Fx {
    let n = s_vec3_norm(v);
    if n == 0 {
        Vec3Fx { x: 0i64, y: 0i64, z: 0i64 }
    } else {
        Vec3Fx {
            x: s_fx_div(s_fx_clamp(v.x as int), n) as i64,
            y: s_fx_div(s_fx_clamp(v.y as int), n) as i64,
            z: s_fx_div(s_fx_clamp(v.z as int), n) as i64,
        }
    }
}

/// Componentwise saturating sum.
pub fn vec3_add(a: &Vec3Fx, b: &Vec3Fx) -> (r: Vec3Fx)
    ensures
        r == s_vec3_add(*a, *b),
{
    Vec3Fx { x: fx_add(a.x, b.x), y: fx_add(a.y, b.y), z: fx_add(a.z, b.z) }
}

/// Componentwise saturating difference.
pub fn vec3_sub(a: &Vec3Fx, b: &Vec3Fx) -> (r: Vec3Fx)
    ensures
        r == s_vec3_sub(*a, *b),
{
    Vec3Fx { x: fx_sub(a.x, b.x), y: fx_sub(a.y, b.y), z: fx_sub(a.z, b.z) }
}

/// The fixed-point cross product.
pub fn vec3_cross(a: &Vec3Fx, b: &Vec3Fx) -> (r: Vec3Fx)
    ensures
        r == s_vec3_cross(*a, *b),
{
    Vec3Fx {
        x: fx_sub(fx_mul(a.y, b.z), fx_mul(a.z, b.y)),
        y: fx_sub(fx_mul(a.z, b.x), fx_mul(a.x, b.z)),
        z: fx_sub(fx_mul(a.x, b.y), fx_mul(a.y, b.x)),
    }
}

/// The Euclidean norm, in fixed point.
pub fn vec3_norm(v: &Vec3Fx) -> (r: i64)
    ensures
        r == s_vec3_norm(*v),
        0 <= r < 0x1_0000_0000_0000,
{
    let x = fx_clamp_wide(v.x as i128);
    let y = fx_clamp_wide(v.y as i128);
    let z = fx_clamp_wide(v.z as i128);
    proof {
        assert(0 <= (x as int) * (x as int) <= 0x1000_0000_0000_0000_0000_0000)
            by (nonlinear_arith)
            requires
                -0x4000_0000_0000 <= x as int <= 0x4000_0000_0000,
        ;
        assert(0 <= (y as int) * (y as int) <= 0x1000_0000_0000_0000_0000_0000)
            by (nonlinear_arith)
            requires
                -0x4000_0000_0000 <= y as int <= 0x4000_0000_0000,
        ;
        assert(0 <= (z as int) * (z as int) <= 0x1000_0000_0000_0000_0000_0000)
            by (nonlinear_arith)
            requires
                -0x4000_0000_0000 <= z as int <= 0x4000_0000_0000,
        ;
    }
    let sq: u128 = ((x as i128) * (x as i128) + (y as i128) * (y as i128) + (z as i128) * (
    z as i128)) as u128;
    let root = isqrt_u128(sq);
    proof {
        assert(root as int <= 0xffff_ffff_ffff) by {
            if root as int > 0xffff_ffff_ffff {
                assert((root as int) * (root as int) > 0x3000_0000_0000_0000_0000_0000)
                    by (nonlinear_arith)
                    requires
                        root as int >= 0x1_0000_0000_0000,
                ;
            }
        }
    }
    root as i64
}

/// The unit vector along `v`, or zero when `v` has norm zero.
pub fn vec3_normalize(v: &Vec3Fx) -> (r: Vec3Fx)
    ensures
        r == s_vec3_normalize(*v),
{
    let n = vec3_norm(v);
    if n == 0 {
        Vec3Fx { x: 0, y: 0, z: 0 }
    } else {
        let x = fx_clamp_wide(v.x as i128);
        let y = fx_clamp_wide(v.y as i128);
        let z = fx_clamp_wide(v.z as i128);
        Vec3Fx { x: fx_div(x, n), y: fx_div(y, n), z: fx_div(z, n) }
    }
}

} // verus!
