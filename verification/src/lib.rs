//! Fixed-size vector algebra with verified arithmetic.
//!
//! The library models each component type by its mathematical value and
//! proves every operation exact and free of overflow within the stated
//! ranges.

pub mod aliases;
pub mod numeric_traits;
pub mod ray;
pub mod utils;
pub mod vector;

pub use aliases::{Vec2i, Vec2u, Vec3i, Vec3u, Vec4i, Vec4u};
pub use numeric_traits::{Numeric, NumericAbs, NumericSigNum};
pub use ray::{at_model, lemma_at_affine, Ray};
pub use utils::{reflect_model, reflect_on_normal};
pub use vector::{dot_model, dot_prefix, Extend, Vector, XY, XYZ, XYZW};
