//! The string type.
use vstd::prelude::*;
use crate::token::Token;
use crate::values::value_size::ValueSize;
use crate::values::value_type::{ValueType, ValueTypes, SpecType, opt_type_view};

verus! {

/// The string type.
#[derive(Debug, Clone, Copy)]
pub struct StringType {}

impl View for StringType {
    type V = SpecType;

    open spec fn view(&self) -> SpecType {
        SpecType::String
    }
}

impl StringType {
    pub fn new() -> (r: Self)
        ensures
            r@ == SpecType::String,
    {
        StringType {}
    }

    pub fn value_type(&self) -> (r: ValueTypes)
        ensures
            r == self@.kind(),
    {
        ValueTypes::String
    }

    pub fn eq(&self, other: &ValueType) -> (r: bool)
        ensures
            r == self@.type_eq(other@),
    {
        self.value_type() == other.value_type()
    }

    pub fn is_valid_bin_op(&self, _op: &Token, _t: &ValueType) -> (r: Option<ValueType>)
        ensures
            opt_type_view(r) == self@.bin_op(_op.tok_type, _t@),
    {
        None
    }

    pub fn is_valid_unary_op(&self, _op: &Token) -> (r: Option<ValueType>)
        ensures
            opt_type_view(r) == self@.unary_op(_op.tok_type),
    {
        None
    }

    /// A string may be cast to an immutable pointer to characters.
    pub fn is_valid_cast(&self, t: &ValueType) -> (r: bool)
        ensures
            r == self@.valid_cast(t@),
    {
        if t.value_type() == ValueTypes::Pointer {
            match t {
                ValueType::Pointer(p) => {
                    if p.pointee_type().value_type() == ValueTypes::Char && !*p.is_mutable() {
                        return true;
                    }
                },
                _ => {},
            }
        }

        false
    }

    pub fn box_clone(&self) -> (r: ValueType)
        ensures
            r@ == self@,
    {
        ValueType::String(StringType::new())
    }

    pub fn get_size(&self) -> (r: ValueSize)
        ensures
            self@.size() == Some(r),
    {
        ValueSize::Qword
    }

    /// The type as it is printed in messages.
    pub fn to_string(&self) -> (r: String)
        ensures
            r@ == self@.display(),
    {
        String::from_str("string")
    }
}

} // verus!
