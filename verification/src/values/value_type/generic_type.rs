//! Generic type parameters.
use vstd::prelude::*;
use crate::token::Token;
use crate::text::concat3;
use crate::values::value_type::{ValueType, ValueTypes, SpecType, opt_type_view};

verus! {

/// The generic type parameter called `generic_name`. It allows every
/// operation and cast, and has no size.
#[derive(Debug)]
pub struct GenericType {
    pub generic_name: String,
}

impl View for GenericType {
    type V = SpecType;

    open spec fn view(&self) -> SpecType {
        SpecType::Generic { name: self.generic_name@ }
    }
}

impl GenericType {
    pub fn new(generic_name: String) -> (r: GenericType)
        ensures
            r.generic_name == generic_name,
    {
        Self { generic_name }
    }

    pub fn name(&self) -> (r: &str)
        ensures
            r@ == self.generic_name@,
    {
        self.generic_name.as_str()
    }

    pub fn value_type(&self) -> (r: ValueTypes)
        ensures
            r == self@.kind(),
    {
        ValueTypes::Generic
    }

    /// Generic types are equal when their names are.
    pub fn eq(&self, other: &ValueType) -> (r: bool)
        ensures
            r == self@.type_eq(other@),
    {
        match other {
            ValueType::Generic(o) => self.generic_name == o.generic_name,
            _ => false,
        }
    }

    pub fn is_valid_bin_op(&self, _op: &Token, _t: &ValueType) -> (r: Option<ValueType>)
        ensures
            opt_type_view(r) == self@.bin_op(_op.tok_type, _t@),
    {
        Some(self.box_clone())
    }

    pub fn is_valid_unary_op(&self, _op: &Token) -> (r: Option<ValueType>)
        ensures
            opt_type_view(r) == self@.unary_op(_op.tok_type),
    {
        Some(self.box_clone())
    }

    pub fn is_valid_cast(&self, _t: &ValueType) -> (r: bool)
        ensures
            r == self@.valid_cast(_t@),
    {
        true
    }

    pub fn box_clone(&self) -> (r: ValueType)
        ensures
            r@ == self@,
    {
        ValueType::Generic(GenericType::new(self.generic_name.clone()))
    }

    /// The type as it is printed in messages.
    pub fn to_string(&self) -> (r: String)
        ensures
            r@ == self@.display(),
    {
        concat3("<", self.generic_name.as_str(), ">")
    }
}

} // verus!
