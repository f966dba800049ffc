//! Declarations of a typed variable.
use vstd::prelude::*;
use crate::nodes::Node;
use crate::position::Position;
use crate::values::value_type::ValueType;

verus! {

/// `let [mut] var_name: var_type = value_node`, starting at `pos_start`.
#[derive(Debug)]
pub struct VarDeclarationNode {
    pub var_name: String,
    pub var_type: ValueType,
    pub value_node: Box<Node>,
    pub is_mutable: bool,
    pub pos_start: Position,
}

impl VarDeclarationNode {
    pub fn new(var_name: String, var_type: ValueType, value_node: Node, is_mutable: bool, pos_start: Position) -> (r: Self)
        ensures
            r.var_name == var_name,
            r.var_type == var_type,
            *r.value_node == value_node,
            r.is_mutable == is_mutable,
            r.pos_start == pos_start,
    {
        VarDeclarationNode { var_name, var_type, value_node: Box::new(value_node), is_mutable, pos_start }
    }

    pub fn var_name(&self) -> (r: &str)
        ensures
            r@ == self.var_name@,
    {
        self.var_name.as_str()
    }

    pub fn var_type(&self) -> (r: &ValueType)
        ensures
            *r == self.var_type,
    {
        &self.var_type
    }

    pub fn value_node(&self) -> (r: &Node)
        ensures
            *r == *self.value_node,
    {
        &self.value_node
    }

    pub fn is_mutable(&self) -> (r: bool)
        ensures
            r == self.is_mutable,
    {
        self.is_mutable
    }

    pub fn pos_start(&self) -> (r: &Position)
        ensures
            *r == self.pos_start,
    {
        &self.pos_start
    }
}

} // verus!
