//! The Extended Unified Camera Model: a closed-form mapping between pixel
//! coordinates and viewing rays for lenses with strong radial distortion.
//!
//! The model is generic over the scalar it computes with. A scalar type
//! supplies its arithmetic through [`RealScalar`]; the contracts of the two
//! transforms state, operation by operation, which value is returned.

pub mod scalar;
pub mod geometry;
pub mod eucm;

pub use scalar::RealScalar;
pub use geometry::{CameraModel, Pixel, Point, Ray};
pub use eucm::EucmParams;
