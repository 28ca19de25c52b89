//! Structured-data validation: typed parse-and-validate wrappers built on a
//! small set of rule primitives that collect every failure of a field.
pub mod base;
pub mod common;
pub mod types;
