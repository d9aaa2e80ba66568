//! Verified core of a metric unit-conversion tool.
//!
//! Values are exact rational numbers, so conversion results, identity
//! conversions and round trips can be stated and proved exactly rather
//! than up to a floating-point epsilon.

pub mod converter;
pub mod history;
pub mod rational;
