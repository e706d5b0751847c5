//! A small 3D transform library, verified with Verus: a 3x3 matrix and a
//! 3-component vector over exact integer scalars, with construction, copy,
//! matrix multiplication, axis rotation (from the angle's cosine and sine),
//! translation, and matrix-vector application.

pub mod laws;
pub mod matrix;
pub mod vector;

pub use matrix::Axis;
pub use matrix::Mat3;
pub use matrix::Mat3View;
pub use matrix::identity;
pub use matrix::mat_mul;
pub use matrix::mat_vec_mul;
pub use matrix::rotation_matrix;
pub use matrix::transpose;
pub use matrix::mat_bounded;
pub use matrix::scalar_bounded;
pub use matrix::vec_bounded;
pub use vector::Vec3;
pub use vector::Vec3View;
pub use vector::translated;
