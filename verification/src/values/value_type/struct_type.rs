//! Structure types, named by their structure.
use vstd::prelude::*;
use crate::token::Token;
use crate::text::concat2;
use crate::values::value_size::ValueSize;
use crate::values::value_type::{ValueType, ValueTypes, SpecType, opt_type_view};

verus! {

/// The type of the structure called `name`.
#[derive(Debug)]
pub struct StructType {
    pub name: String,
}

impl View for StructType {
    type V = SpecType;

    open spec fn view(&self) -> SpecType {
        SpecType::Struct { name: self.name@ }
    }
}

impl StructType {
    pub fn new(name: String) -> (r: Self)
        ensures
            r.name == name,
    {
        Self { name }
    }

    pub fn name(&self) -> (r: &str)
        ensures
            r@ == self.name@,
    {
        self.name.as_str()
    }

    pub fn value_type(&self) -> (r: ValueTypes)
        ensures
            r == self@.kind(),
    {
        ValueTypes::Struct
    }

    /// Any two structure types are equal, whatever their names.
    pub fn eq(&self, other: &ValueType) -> (r: bool)
        ensures
            r == self@.type_eq(other@),
    {
        self.value_type() == other.value_type()
    }

    pub fn is_valid_bin_op(&self, _op: &Token, _t: &ValueType) -> (r: Option<ValueType>)
        ensures
            opt_type_view(r) == self@.bin_op(_op.tok_type, _t@),
    {
        None
    }

    pub fn is_valid_unary_op(&self, _op: &Token) -> (r: Option<ValueType>)
        ensures
            opt_type_view(r) == self@.unary_op(_op.tok_type),
    {
        None
    }

    pub fn is_valid_cast(&self, _t: &ValueType) -> (r: bool)
        ensures
            r == self@.valid_cast(_t@),
    {
        false
    }

    pub fn box_clone(&self) -> (r: ValueType)
        ensures
            r@ == self@,
    {
        ValueType::Struct(StructType::new(self.name.clone()))
    }

    pub fn get_size(&self) -> (r: ValueSize)
        ensures
            self@.size() == Some(r),
    {
        ValueSize::Qword
    }

    /// The type as it is printed in messages.
    pub fn to_string(&self) -> (r: String)
        ensures
            r@ == self@.display(),
    {
        concat2("struct ", self.name.as_str())
    }
}

} // verus!
