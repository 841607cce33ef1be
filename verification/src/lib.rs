//! A voxel-space heightfield renderer: a terrain tile sampled toroidally,
//! a camera whose parameters are integrated from logical input, and a
//! column raycaster that turns a camera pose into vertical color spans.
//!
//! All continuous quantities are carried in 16.16 fixed point so that the
//! arithmetic of the renderer and of the camera integration is exact and
//! machine-checked.

pub mod fixed;
pub mod input;
pub mod map;
pub mod render;
pub mod state;
pub mod timer;
