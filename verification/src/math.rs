//! Integer geometry: vectors, transforms and shapes.

pub mod numeric;
pub mod vector;
pub mod transform;
pub mod shapes;
