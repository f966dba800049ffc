//! The unsigned 32-bit number type.
use vstd::prelude::*;
use crate::token::{Token, TokenType};
use crate::values::value_size::ValueSize;
use crate::values::value_type::{ValueType, ValueTypes, SpecType, opt_type_view};
use crate::values::value_type::bool_type::BoolType;

verus! {

/// The unsigned 32-bit number type.
#[derive(Debug, Clone, Copy)]
pub struct U32Type {}

impl View for U32Type {
    type V = SpecType;

    open spec fn view(&self) -> SpecType {
        SpecType::U32
    }
}

impl U32Type {
    pub fn new() -> (r: Self)
        ensures
            r@ == SpecType::U32,
    {
        U32Type {}
    }

    pub fn value_type(&self) -> (r: ValueTypes)
        ensures
            r == self@.kind(),
    {
        ValueTypes::U32
    }

    pub fn eq(&self, other: &ValueType) -> (r: bool)
        ensures
            r == self@.type_eq(other@),
    {
        self.value_type() == other.value_type()
    }

    pub fn is_valid_bin_op(&self, op: &Token, t: &ValueType) -> (r: Option<ValueType>)
        ensures
            opt_type_view(r) == self@.bin_op(op.tok_type, t@),
    {
        if t.value_type() != ValueTypes::U32 {
            return None;
        }

        match op.token_type() {
            TokenType::Minus
            | TokenType::Plus
            | TokenType::Mul
            | TokenType::Div
            | TokenType::Modulo
            | TokenType::BitOr
            | TokenType::BitAnd
            | TokenType::BitXor
            | TokenType::BitShl
            | TokenType::BitShr => Some(ValueType::U32(U32Type::new())),
            TokenType::Ee
            | TokenType::Ne
            | TokenType::Gt
            | TokenType::Lt
            | TokenType::Gte
            | TokenType::Lte => Some(ValueType::Bool(BoolType::new())),
            _ => None,
        }
    }

    pub fn is_valid_unary_op(&self, op: &Token) -> (r: Option<ValueType>)
        ensures
            opt_type_view(r) == self@.unary_op(op.tok_type),
    {
        match op.token_type() {
            TokenType::Minus | TokenType::Plus | TokenType::BitNot => Some(ValueType::U32(U32Type::new())),
            _ => None,
        }
    }

    pub fn is_valid_cast(&self, t: &ValueType) -> (r: bool)
        ensures
            r == self@.valid_cast(t@),
    {
        let k = t.value_type();
        k == ValueTypes::Bool
            || k == ValueTypes::Pointer
            || k == ValueTypes::Char
            || k == ValueTypes::U64
            || k == ValueTypes::U16
            || k == ValueTypes::U8
    }

    pub fn box_clone(&self) -> (r: ValueType)
        ensures
            r@ == self@,
    {
        ValueType::U32(U32Type::new())
    }

    pub fn get_size(&self) -> (r: ValueSize)
        ensures
            self@.size() == Some(r),
    {
        ValueSize::Dword
    }

    /// The type as it is printed in messages.
    pub fn to_string(&self) -> (r: String)
        ensures
            r@ == self@.display(),
    {
        String::from_str("u32")
    }
}

} // verus!
