//! Fixed-size array types.
use vstd::prelude::*;
use crate::token::Token;
use crate::text::{concat2, usize_to_string};
use crate::values::value_size::ValueSize;
use crate::values::value_type::{ValueType, ValueTypes, SpecType, opt_type_view};

verus! {

/// An array of `size` elements of `children_type`.
#[derive(Debug)]
pub struct ArrayType {
    pub size: usize,
    pub children_type: Box<ValueType>,
}

impl View for ArrayType {
    type V = SpecType;

    open spec fn view(&self) -> SpecType {
        SpecType::Array { size: self.size, children: Box::new(self.children_type.spec_view()) }
    }
}

impl ArrayType {
    pub fn new(size: usize, children_type: ValueType) -> (r: Self)
        ensures
            r.size == size,
            *r.children_type == children_type,
    {
        ArrayType { size, children_type: Box::new(children_type) }
    }

    pub fn size(&self) -> (r: &usize)
        ensures
            *r == self.size,
    {
        &self.size
    }

    pub fn children_type(&self) -> (r: &ValueType)
        ensures
            *r == *self.children_type,
    {
        &self.children_type
    }

    pub fn value_type(&self) -> (r: ValueTypes)
        ensures
            r == self@.kind(),
    {
        ValueTypes::Array
    }

    /// Arrays are equal when their sizes and element types are.
    pub fn eq(&self, other: &ValueType) -> (r: bool)
        ensures
            r == self@.type_eq(other@),
        decreases self,
    {
        match other {
            ValueType::Array(o) => self.size == o.size && self.children_type.eq(o.children_type()),
            _ => false,
        }
    }

    pub fn is_valid_bin_op(&self, _op: &Token, _t: &ValueType) -> (r: Option<ValueType>)
        ensures
            opt_type_view(r) == self@.bin_op(_op.tok_type, _t@),
    {
        None
    }

    pub fn is_valid_unary_op(&self, _op: &Token) -> (r: Option<ValueType>)
        ensures
            opt_type_view(r) == self@.unary_op(_op.tok_type),
    {
        None
    }

    pub fn is_valid_cast(&self, _t: &ValueType) -> (r: bool)
        ensures
            r == self@.valid_cast(_t@),
    {
        false
    }

    pub fn box_clone(&self) -> (r: ValueType)
        ensures
            r@ == self@,
        decreases self,
    {
        ValueType::Array(ArrayType::new(self.size, self.children_type.box_clone()))
    }

    /// The size of an array's operand is that of its elements.
    pub fn get_size(&self) -> (r: ValueSize)
        requires
            self@.size() is Some,
        ensures
            self@.size() == Some(r),
        decreases self,
    {
        self.children_type.get_size()
    }

    /// The type as it is printed in messages.
    pub fn to_string(&self) -> (r: String)
        ensures
            r@ == self@.display(),
        decreases self,
    {
        let mut s = concat2("<ArrayType>[Type: ", self.children_type.to_string().as_str());
        s.append(", Size: ");
        s.append(usize_to_string(self.size).as_str());
        s.append("]");
        s
    }
}

} // verus!
