//! Per-pixel fragments produced by the rasterizer.

use vstd::prelude::*;
use crate::vecmat::Vec3Fx;

verus! {

/// One rasterized pixel: its integer screen position, interpolated depth,
/// the barycentric blend of the triangle's transformed normals (the shading
/// coordinate every fragment shader reads), and a flat diffuse light
/// intensity in `[0, FX_ONE]`.
#[derive(Clone, Copy, Debug, PartialEq, Eq, Structural)]
pub struct Fragment {
    pub x: i64,
    pub y: i64,
    pub depth: i64,
    pub vertex_position: Vec3Fx,
    pub intensity: i64,
}

} // verus!
