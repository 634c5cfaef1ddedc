//! Render a raster image as colored block characters in a terminal.

pub mod color;
pub mod raster;
pub mod render;
pub mod sizing;
