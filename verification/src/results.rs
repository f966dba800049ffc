//! Results that the parser and the validator pass between their functions.
pub mod parse;
pub mod validation;
