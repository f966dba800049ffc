//! Reads of a variable whose type is known.
use vstd::prelude::*;
use crate::position::Position;
use crate::values::value_type::ValueType;

verus! {

/// A read of `var_name`, of type `value_type`, between two positions.
#[derive(Debug)]
pub struct VarTypedAccessNode {
    pub var_name: String,
    pub value_type: ValueType,
    pub pos_start: Position,
    pub pos_end: Position,
}

impl VarTypedAccessNode {
    pub fn new(var_name: String, value_type: ValueType, pos_start: Position, pos_end: Position) -> (r: Self)
        ensures
            r.var_name == var_name,
            r.value_type == value_type,
            r.pos_start == pos_start,
            r.pos_end == pos_end,
    {
        Self { var_name, value_type, pos_start, pos_end }
    }

    pub fn var_name(&self) -> (r: &str)
        ensures
            r@ == self.var_name@,
    {
        self.var_name.as_str()
    }

    pub fn value_type(&self) -> (r: &ValueType)
        ensures
            *r == self.value_type,
    {
        &self.value_type
    }

    pub fn pos_start(&self) -> (r: &Position)
        ensures
            *r == self.pos_start,
    {
        &self.pos_start
    }

    pub fn pos_end(&self) -> (r: &Position)
        ensures
            *r == self.pos_end,
    {
        &self.pos_end
    }
}

} // verus!
