//! Declarations of a variable whose type comes from its value.
use vstd::prelude::*;
use crate::nodes::{Node, NodeType};
use crate::position::Position;

verus! {

/// `let [mut] var_name = value_node`, starting at `pos_start`.
#[derive(Debug)]
pub struct VarDeclarationNode {
    pub var_name: String,
    pub value_node: Box<Node>,
    pub is_mutable: bool,
    pub pos_start: Position,
}

impl VarDeclarationNode {
    pub fn new(var_name: String, value_node: Node, is_mutable: bool, pos_start: Position) -> (r: Self)
        ensures
            r.var_name == var_name,
            *r.value_node == value_node,
            r.is_mutable == is_mutable,
            r.pos_start == pos_start,
    {
        VarDeclarationNode { var_name, value_node: Box::new(value_node), is_mutable, pos_start }
    }

    pub fn var_name(&self) -> (r: &String)
        ensures
            *r == self.var_name,
    {
        &self.var_name
    }

    pub fn value_node(&self) -> (r: &Node)
        ensures
            *r == *self.value_node,
    {
        &self.value_node
    }

    pub fn is_mutable(&self) -> (r: bool)
        ensures
            r == self.is_mutable,
    {
        self.is_mutable
    }

    pub fn pos_start(&self) -> (r: &Position)
        ensures
            *r == self.pos_start,
    {
        &self.pos_start
    }

    /// The declaration ends where its value ends.
    pub fn pos_end(&self) -> (r: Position)
        ensures
            r@ == self.value_node@.pos_end(),
    {
        self.value_node.pos_end()
    }

    /// A declaration is a node of kind `VarDeclaration`.
    pub fn node_type(&self) -> (r: NodeType)
        ensures
            r == NodeType::VarDeclaration,
    {
        NodeType::VarDeclaration
    }
}

} // verus!
