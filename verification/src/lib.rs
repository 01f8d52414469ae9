//! Geometry core for a rotating wireframe cube.
//!
//! The library works in fixed-point arithmetic: a real value `v` is stored
//! as the integer `v * FX_ONE`, truncated toward zero. The trigonometric
//! values for a rotation (sine and cosine of the frame's angle) are computed
//! by the embedding program and handed in as fixed-point numbers; everything
//! downstream of them — rotation composition, orthographic projection,
//! screen mapping and edge enumeration — is verified here.

pub mod fixed;
pub mod color;
pub mod geometry;
pub mod frame;
pub mod render;

pub use fixed::FX_ONE;
