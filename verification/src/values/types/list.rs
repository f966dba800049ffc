//! Lists of values of one element type.
use vstd::prelude::*;
use crate::token::Token;
use crate::values::vtype::{ValueType, ValueTypes};

verus! {

/// A list whose elements have the type `T`.
#[derive(Debug)]
pub struct ListType<T> {
    pub element_type: Box<T>,
}

impl<T> ListType<T> {
    pub fn new(element_type: Box<T>) -> (r: Self)
        ensures
            r.element_type == element_type,
    {
        ListType { element_type }
    }

    pub fn element_type(&self) -> (r: &Box<T>)
        ensures
            *r == self.element_type,
    {
        &self.element_type
    }
}

impl<T: ValueType> ValueType for ListType<T> {
    open spec fn kind(&self) -> ValueTypes {
        ValueTypes::Array
    }

    fn value_type(&self) -> (r: ValueTypes)
        ensures
            r == ValueTypes::Array,
    {
        ValueTypes::Array
    }

    /// Only a list type can be the same as a list type; the element type of
    /// the other type is not known from its kind, so it is not compared.
    fn eq(&self, other: ValueTypes) -> (r: bool)
        ensures
            r == (other == ValueTypes::Array),
    {
        other == ValueTypes::Array
    }

    fn box_clone(&self) -> (r: Box<Self>) {
        Box::new(ListType { element_type: self.element_type.box_clone() })
    }

    fn is_valid_bin_op(&self, op: &Token, t: ValueTypes) -> (r: Option<ValueTypes>)
        ensures
            r is None,
    {
        None
    }

    fn is_valid_unary_op(&self, op: &Token) -> (r: Option<ValueTypes>)
        ensures
            r is None,
    {
        None
    }
}

} // verus!
