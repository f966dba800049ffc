//! The character type.
use vstd::prelude::*;
use crate::token::{Token, TokenType};
use crate::values::value_size::ValueSize;
use crate::values::value_type::{ValueType, ValueTypes, SpecType, opt_type_view};

verus! {

/// The character type.
#[derive(Debug, Clone, Copy)]
pub struct CharType {}

impl View for CharType {
    type V = SpecType;

    open spec fn view(&self) -> SpecType {
        SpecType::Char
    }
}

impl CharType {
    pub fn new() -> (r: Self)
        ensures
            r@ == SpecType::Char,
    {
        CharType {}
    }

    pub fn value_type(&self) -> (r: ValueTypes)
        ensures
            r == self@.kind(),
    {
        ValueTypes::Char
    }

    pub fn eq(&self, other: &ValueType) -> (r: bool)
        ensures
            r == self@.type_eq(other@),
    {
        self.value_type() == other.value_type()
    }

    pub fn is_valid_bin_op(&self, op: &Token, t: &ValueType) -> (r: Option<ValueType>)
        ensures
            opt_type_view(r) == self@.bin_op(op.tok_type, t@),
    {
        None
    }

    pub fn is_valid_unary_op(&self, op: &Token) -> (r: Option<ValueType>)
        ensures
            opt_type_view(r) == self@.unary_op(op.tok_type),
    {
        None
    }

    pub fn is_valid_cast(&self, t: &ValueType) -> (r: bool)
        ensures
            r == self@.valid_cast(t@),
    {
        true
    }

    pub fn box_clone(&self) -> (r: ValueType)
        ensures
            r@ == self@,
    {
        ValueType::Char(CharType::new())
    }

    pub fn get_size(&self) -> (r: ValueSize)
        ensures
            self@.size() == Some(r),
    {
        ValueSize::Qword
    }

    /// The type as it is printed in messages.
    pub fn to_string(&self) -> (r: String)
        ensures
            r@ == self@.display(),
    {
        String::from_str("<CharType>[]")
    }
}

} // verus!
