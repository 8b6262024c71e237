//! Per-vertex attribute bundles.

use vstd::prelude::*;
use crate::color::Color;
use crate::vecmat::{Vec2Fx, Vec3Fx};

verus! {

/// A vertex: model-space attributes plus the transformed copies that the
/// vertex stage produces (screen-space position after the perspective
/// divide and viewport map, and the world-oriented normal).
#[derive(Clone, Copy, Debug, PartialEq, Eq, Structural)]
pub struct Vertex {
    pub position: Vec3Fx,
    pub normal: Vec3Fx,
    pub tex_coords: Vec2Fx,
    pub color: Color,
    pub transformed_position: Vec3Fx,
    pub transformed_normal: Vec3Fx,
}

impl Vertex {
    /// Build a vertex from its model-space attributes; the transformed
    /// fields start out equal to the model-space ones.
    pub fn new(position: Vec3Fx, normal: Vec3Fx, tex_coords: Vec2Fx, color: Color) -> (v: Vertex)
        ensures
            v == (Vertex {
                position,
                normal,
                tex_coords,
                color,
                transformed_position: position,
                transformed_normal: normal,
            }),
    {
        Vertex {
            position,
            normal,
            tex_coords,
            color,
            transformed_position: position,
            transformed_normal: normal,
        }
    }
}

} // verus!
