//! Conversion of decimal literals into IEEE 754 binary floating point values,
//! with every step carrying a machine-checked contract.
//!
//! Floating point values are handled as bit patterns throughout: the two
//! supported formats are [`Binary32`] and [`Binary64`], which wrap the IEEE
//! encoding of a value. The entry point is [`parse_float`].

pub mod dec2flt;
pub mod diy_float;

pub use crate::dec2flt::float::Binary32;
pub use crate::dec2flt::float::Binary64;
pub use crate::dec2flt::float::RawFloat;
pub use crate::dec2flt::parse_float;
pub use crate::dec2flt::FloatErrorKind;
pub use crate::dec2flt::ParseFloatError;


