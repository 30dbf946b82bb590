//! A simple and flexible multidimensional coordinate point, based on an array.
//!
//! See the `PointND` struct for basic usage.

pub mod arr_based_point;
pub mod axes;
pub mod dimension;
pub mod point;
pub mod transform;

pub use arr_based_point::PointAD;
pub use dimension::dim;
pub use dimension::dims;
pub use dimension::Dim;
pub use point::LengthMismatch;
pub use point::PointND;
pub use transform::MAX_POINT_DIMS;
