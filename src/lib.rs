//! Sums human-written disk sizes such as `200M` or `1.5G`.
//!
//! The verified part of the library covers the grammar of a size
//! expression, the binary units and their multipliers, the choice of unit
//! when a byte count is rendered, and the decision taken for each input line.
//! The floating-point arithmetic around it is left to the caller.
pub mod unit;
pub mod expression;
pub mod error;
pub mod line;
pub mod format;

pub use unit::Unit;
pub use expression::{SizeExpression, parse_size_expression, join_unit};
pub use error::SpaceSumError;
pub use line::{parse_size_line, reject_size_line};
pub use format::{unit_for_scale, FRACTION_DIGITS};
