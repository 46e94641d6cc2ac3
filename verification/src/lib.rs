//! Angular quantities in two units, radians and degrees, over an exact
//! fixed-point scalar.
//!
//! The two unit types share one contract, the [`Angle`] trait: named turn
//! fractions, unit-preserving arithmetic, normalization into one turn
//! (`wrap`), the half-turn rotation (`opposite`), conversion between the
//! units, exact ordering, and tolerance-based (fuzzy) equality.

pub mod scalar;
pub mod render;
pub mod angle;
pub mod laws;

pub use crate::scalar::Fixed;
pub use crate::scalar::SCALE;
pub use crate::scalar::FUZZY_EPS;
pub use crate::angle::Angle;
pub use crate::angle::Radians;
pub use crate::angle::Degrees;
