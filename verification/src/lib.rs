//! Renders scenes described by signed distance fields to a character grid
//! by sphere tracing, over saturating fixed-point arithmetic: shape and
//! scene distance functions, the camera projection, the ray marcher, the
//! lighting model, and the brightness-to-glyph mapping.

use vstd::prelude::*;

pub mod buffer;
pub mod camera;
pub mod fixed;
pub mod renderer;
pub mod screen;
pub mod sdf;
pub mod trig;
pub mod vector;

verus! {

} // verus!
