//! Integer plane geometry for raster work: two-axis integer vectors, their
//! arithmetic, triangle bounding boxes and exact barycentric weights.

pub mod triangle;
pub mod vector2i;

pub use crate::triangle::Barycentric;
pub use crate::vector2i::Vector2i;
