//! Assignments to a variable whose type is known.
use vstd::prelude::*;
use crate::nodes::Node;
use crate::position::Position;
use crate::values::value_type::ValueType;

verus! {

/// `var_name = value_node`, where the value has type `value_type`.
#[derive(Debug)]
pub struct VarTypedAssignNode {
    pub var_name: String,
    pub value_node: Box<Node>,
    pub value_type: ValueType,
    pub pos_start: Position,
}

impl VarTypedAssignNode {
    pub fn new(var_name: String, value_node: Node, value_type: ValueType, pos_start: Position) -> (r: Self)
        ensures
            r.var_name == var_name,
            *r.value_node == value_node,
            r.value_type == value_type,
            r.pos_start == pos_start,
    {
        Self { var_name, value_node: Box::new(value_node), value_type, pos_start }
    }

    pub fn var_name(&self) -> (r: &str)
        ensures
            r@ == self.var_name@,
    {
        self.var_name.as_str()
    }

    pub fn value_node(&self) -> (r: &Node)
        ensures
            *r == *self.value_node,
    {
        &self.value_node
    }

    pub fn value_type(&self) -> (r: &ValueType)
        ensures
            *r == self.value_type,
    {
        &self.value_type
    }

    pub fn pos_start(&self) -> (r: &Position)
        ensures
            *r == self.pos_start,
    {
        &self.pos_start
    }
}

} // verus!
