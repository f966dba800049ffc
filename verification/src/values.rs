//! Types of values and their sizes.
pub mod value_size;
pub mod value_type;
pub mod vtype;
pub mod types;
