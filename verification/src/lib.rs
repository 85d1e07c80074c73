//! A small software rasterizer: a pixel canvas, integer geometry, and the
//! drawing commands that paint lines, circles, fills and sub-images onto it.

pub mod color;
pub mod math;
pub mod canvas;
pub mod window;
pub mod prelude;
