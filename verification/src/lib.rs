//! A quaternion value type over exact 32-bit integer scalars.
//!
//! The crate provides construction, squared-norm computation, decomposition
//! to a 4-tuple, human-readable formatting, and the five arithmetic
//! operations (negation, addition, subtraction, Hamilton multiplication,
//! and division by the squared norm of the divisor, squared again).
//! Every operation carries a contract relating it to a mathematical model
//! over unbounded integers, and the algebraic laws of the type are stated
//! and proved as public proof functions.

pub mod algebra;
pub mod display;

pub use algebra::Quat;
pub use algebra::Quaternion;
pub use display::ComponentText;
pub use display::Sign;
