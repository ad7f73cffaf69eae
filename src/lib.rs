//! Per-frame scene description for a small 2D application: an asset registry
//! that turns encoded image and font bytes into handles, and a drawing context
//! that collects an ordered command list for each frame.

pub mod application;
pub mod assets;
pub mod canvas;
pub mod style;
