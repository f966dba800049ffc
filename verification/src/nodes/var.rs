//! Variable nodes before type checking.
pub mod assign;
pub mod declare;
