//! Storage layout of a 3×3 matrix: values are taken and read back in
//! row-major order and kept column after column.
pub mod matrices;

pub use matrices::Matrix3x3;
