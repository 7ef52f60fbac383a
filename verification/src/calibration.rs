//! Blend shapes reported by the face and eye models.

pub mod capture;
pub mod eye;
pub mod face;

pub use eye::EyeShape;
pub use face::{FaceShape, ParseFaceShapeError};
