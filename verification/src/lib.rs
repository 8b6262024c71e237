//! A software (CPU-only) 3D rendering pipeline over fixed-point arithmetic:
//! vertex transformation through model/view/projection/viewport matrices,
//! edge-function triangle rasterization with barycentric interpolation,
//! a z-buffered framebuffer, and procedural fragment shaders.
//!
//! All coordinates, depths and shading scalars are 16.16 fixed-point values
//! (`i64` holding `value * 65536`), so the whole pipeline is exact integer
//! arithmetic with saturation at a wide representable window.

pub mod circle;
pub mod color;
pub mod fixed;
pub mod fragment;
pub mod pipeline;
pub mod shaders;
pub mod triangle;
pub mod framebuffer;
pub mod vecmat;
pub mod vertex;
