//! The types of the first type system.
pub mod number;
pub mod string;
pub mod list;
