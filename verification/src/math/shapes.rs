//! The shape primitives: plain data, each with its image under a transform.

pub mod line;
pub mod rect;
pub mod circle;
pub mod triangle;
