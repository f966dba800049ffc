//! The boolean type.
use vstd::prelude::*;
use crate::token::{Token, TokenType};
use crate::values::value_size::ValueSize;
use crate::values::value_type::{ValueType, ValueTypes, SpecType, opt_type_view};

verus! {

/// The boolean type.
#[derive(Debug, Clone, Copy)]
pub struct BoolType {}

impl View for BoolType {
    type V = SpecType;

    open spec fn view(&self) -> SpecType {
        SpecType::Bool
    }
}

impl BoolType {
    pub fn new() -> (r: Self)
        ensures
            r@ == SpecType::Bool,
    {
        BoolType {}
    }

    pub fn value_type(&self) -> (r: ValueTypes)
        ensures
            r == self@.kind(),
    {
        ValueTypes::Bool
    }

    pub fn eq(&self, other: &ValueType) -> (r: bool)
        ensures
            r == self@.type_eq(other@),
    {
        self.value_type() == other.value_type()
    }

    pub fn is_valid_bin_op(&self, op: &Token, t: &ValueType) -> (r: Option<ValueType>)
        ensures
            opt_type_view(r) == self@.bin_op(op.tok_type, t@),
    {
        if t.value_type() != ValueTypes::Bool {
            return None;
        }

        match op.token_type() {
            TokenType::Or | TokenType::And => Some(ValueType::Bool(BoolType::new())),
            TokenType::Ee
            | TokenType::Ne
            | TokenType::Gt
            | TokenType::Lt
            | TokenType::Gte
            | TokenType::Lte => Some(ValueType::Bool(BoolType::new())),
            _ => None,
        }
    }

    pub fn is_valid_unary_op(&self, op: &Token) -> (r: Option<ValueType>)
        ensures
            opt_type_view(r) == self@.unary_op(op.tok_type),
    {
        if op.token_type() == TokenType::Not {
            return Some(ValueType::Bool(BoolType::new()));
        }

        None
    }

    pub fn is_valid_cast(&self, t: &ValueType) -> (r: bool)
        ensures
            r == self@.valid_cast(t@),
    {
        let k = t.value_type();
        k == ValueTypes::U64
    }

    pub fn box_clone(&self) -> (r: ValueType)
        ensures
            r@ == self@,
    {
        ValueType::Bool(BoolType::new())
    }

    pub fn get_size(&self) -> (r: ValueSize)
        ensures
            self@.size() == Some(r),
    {
        ValueSize::Qword
    }

    /// The type as it is printed in messages.
    pub fn to_string(&self) -> (r: String)
        ensures
            r@ == self@.display(),
    {
        String::from_str("<BoolType>[]")
    }
}

} // verus!
