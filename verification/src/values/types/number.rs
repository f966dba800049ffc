//! Numbers.
use vstd::prelude::*;
use crate::token::{Token, TokenType};
use crate::values::vtype::{ValueType, ValueTypes};

verus! {

/// The kind of `left op right` for two numbers: a number for arithmetic and
/// bit operators, a boolean for comparisons.
pub open spec fn number_bin_op(op: TokenType, t: ValueTypes) -> Option<ValueTypes> {
    if t != ValueTypes::Number {
        None
    } else {
        match op {
            TokenType::Minus | TokenType::Plus | TokenType::Mul | TokenType::Div | TokenType::BitOr
            | TokenType::BitAnd => Some(ValueTypes::Number),
            TokenType::Ee | TokenType::Ne | TokenType::Gt | TokenType::Lt | TokenType::Gte
            | TokenType::Lte => Some(ValueTypes::Bool),
            _ => None,
        }
    }
}

/// The number type.
#[derive(Debug, Clone, Copy)]
pub struct NumberType {}

impl NumberType {
    pub fn new() -> (r: Self) {
        NumberType {}
    }
}

impl ValueType for NumberType {
    open spec fn kind(&self) -> ValueTypes {
        ValueTypes::Number
    }

    fn value_type(&self) -> (r: ValueTypes)
        ensures
            r == ValueTypes::Number,
    {
        ValueTypes::Number
    }

    /// Any two types of the same kind are the same.
    fn eq(&self, other: ValueTypes) -> (r: bool)
        ensures
            r == (other == ValueTypes::Number),
    {
        other == ValueTypes::Number
    }

    fn box_clone(&self) -> (r: Box<Self>) {
        Box::new(NumberType {})
    }

    fn is_valid_bin_op(&self, op: &Token, t: ValueTypes) -> (r: Option<ValueTypes>)
        ensures
            r == number_bin_op(op.tok_type, t),
    {
        if t != ValueTypes::Number {
            return None;
        }

        match op.token_type() {
            TokenType::Minus | TokenType::Plus | TokenType::Mul | TokenType::Div | TokenType::BitOr
            | TokenType::BitAnd => Some(ValueTypes::Number),
            TokenType::Ee | TokenType::Ne | TokenType::Gt | TokenType::Lt | TokenType::Gte
            | TokenType::Lte => Some(ValueTypes::Bool),
            _ => None,
        }
    }

    fn is_valid_unary_op(&self, op: &Token) -> (r: Option<ValueTypes>)
        ensures
            r == (match op.tok_type {
                TokenType::Minus | TokenType::Plus => Some(ValueTypes::Number),
                _ => None,
            }),
    {
        match op.token_type() {
            TokenType::Minus | TokenType::Plus => Some(ValueTypes::Number),
            _ => None,
        }
    }
}

} // verus!
