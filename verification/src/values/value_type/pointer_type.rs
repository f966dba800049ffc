//! Pointer types.
use vstd::prelude::*;
use crate::token::{Token, TokenType};
use crate::text::concat3;
use crate::values::value_size::ValueSize;
use crate::values::value_type::{ValueType, ValueTypes, SpecType, opt_type_view};

verus! {

/// A pointer to values of `pointee_type`, through which they may be changed
/// when `is_mutable` holds.
#[derive(Debug)]
pub struct PointerType {
    pub pointee_type: Box<ValueType>,
    pub is_mutable: bool,
}

impl View for PointerType {
    type V = SpecType;

    open spec fn view(&self) -> SpecType {
        SpecType::Pointer { pointee: Box::new(self.pointee_type.spec_view()), is_mutable: self.is_mutable }
    }
}

impl PointerType {
    pub fn new(pointee_type: ValueType, is_mutable: bool) -> (r: Self)
        ensures
            *r.pointee_type == pointee_type,
            r.is_mutable == is_mutable,
    {
        Self { pointee_type: Box::new(pointee_type), is_mutable }
    }

    pub fn pointee_type(&self) -> (r: &ValueType)
        ensures
            *r == *self.pointee_type,
    {
        &self.pointee_type
    }

    pub fn is_mutable(&self) -> (r: &bool)
        ensures
            *r == self.is_mutable,
    {
        &self.is_mutable
    }

    pub fn value_type(&self) -> (r: ValueTypes)
        ensures
            r == self@.kind(),
    {
        ValueTypes::Pointer
    }

    /// Pointers are equal when their pointee types are.
    pub fn eq(&self, other: &ValueType) -> (r: bool)
        ensures
            r == self@.type_eq(other@),
        decreases self,
    {
        match other {
            ValueType::Pointer(o) => self.pointee_type.eq(o.pointee_type()),
            _ => false,
        }
    }

    pub fn is_valid_bin_op(&self, _op: &Token, _t: &ValueType) -> (r: Option<ValueType>)
        ensures
            opt_type_view(r) == self@.bin_op(_op.tok_type, _t@),
    {
        None
    }

    /// Dereferencing a pointer gives its pointee type.
    pub fn is_valid_unary_op(&self, op: &Token) -> (r: Option<ValueType>)
        ensures
            opt_type_view(r) == self@.unary_op(op.tok_type),
    {
        if op.token_type() == TokenType::Dereference {
            return Some(self.pointee_type.box_clone());
        }

        None
    }

    pub fn is_valid_cast(&self, _t: &ValueType) -> (r: bool)
        ensures
            r == self@.valid_cast(_t@),
    {
        false
    }

    pub fn box_clone(&self) -> (r: ValueType)
        ensures
            r@ == self@,
        decreases self,
    {
        ValueType::Pointer(PointerType::new(self.pointee_type.box_clone(), self.is_mutable))
    }

    pub fn get_size(&self) -> (r: ValueSize)
        ensures
            self@.size() == Some(r),
    {
        ValueSize::Qword
    }

    /// The type as it is printed in messages.
    pub fn to_string(&self) -> (r: String)
        ensures
            r@ == self@.display(),
        decreases self,
    {
        let inner = self.pointee_type.to_string();
        concat3("<PointerType>[", inner.as_str(), "]")
    }
}

} // verus!
