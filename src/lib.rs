//! A validation result that carries a value or a list of errors, together
//! with the warnings gathered on the way, and the decompose / rebuild pair
//! that lets a chain of validation steps stop at the first failure.

pub mod laws;
pub mod validation;

pub use validation::{ResidualView, Validation, ValidationResidual, ValidationView};
