//! Strings.
use vstd::prelude::*;
use crate::token::Token;
use crate::values::vtype::{ValueType, ValueTypes};

verus! {

/// The string type: it allows no operator.
#[derive(Debug, Clone, Copy)]
pub struct StringType {}

impl StringType {
    pub fn new() -> (r: Self) {
        StringType {}
    }
}

impl ValueType for StringType {
    open spec fn kind(&self) -> ValueTypes {
        ValueTypes::String
    }

    fn value_type(&self) -> (r: ValueTypes)
        ensures
            r == ValueTypes::String,
    {
        ValueTypes::String
    }

    /// Any two types of the same kind are the same.
    fn eq(&self, other: ValueTypes) -> (r: bool)
        ensures
            r == (other == ValueTypes::String),
    {
        other == ValueTypes::String
    }

    fn box_clone(&self) -> (r: Box<Self>) {
        Box::new(StringType {})
    }

    fn is_valid_bin_op(&self, op: &Token, t: ValueTypes) -> (r: Option<ValueTypes>)
        ensures
            r is None,
    {
        None
    }

    fn is_valid_unary_op(&self, op: &Token) -> (r: Option<ValueTypes>)
        ensures
            r is None,
    {
        None
    }
}

} // verus!
