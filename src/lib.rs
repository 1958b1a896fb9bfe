//! A chain of coloured arms turning round a common centre: the kinematic
//! model, the clock and controls that drive it, and the ordered list of
//! drawing primitives that a rasterizer turns into a frame.

pub mod geometry;
pub mod arm;
pub mod render;
pub mod input;
pub mod app;
