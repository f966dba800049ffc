//! The syntax tree.
use vstd::prelude::*;
use crate::position::{Position, SpecPosition};
use crate::token::{Token, SpecToken};
use crate::values::value_size::ValueSize;
use crate::values::value_type::{ValueType, SpecType};

pub mod var;
pub mod var_node;
pub mod while_node;

use var::assign::VarAssignNode;
use var_node::access::VarAccessNode;
use var_node::declare::VarDeclarationNode;
use var_node::typed_access::VarTypedAccessNode;
use var_node::typed_assign::VarTypedAssignNode;
use while_node::WhileNode;

verus! {

#[derive(Debug, PartialEq, Eq, Structural, Copy, Clone)]
pub enum NodeType {
    Statements,
    Number,
    String,
    Char,
    List,
    BinOp,
    UnaryOp,
    VarDeclaration,
    VarAssign,
    VarAccess,
    VarTypedAccess,
    VarTypedAssign,
    FunctionDef,
    FunctionDecl,
    Call,
    Return,
    Break,
    Continue,
    Syscall,
    While,
    For,
    If,
    Cast,
    ConstDef,
    SizeOf,
    StaticDef,
    StructDef,
    ReadBytes,
    Dereference,
    Import,
    MacroDef,
    Ignored,
    Accessor,
    PointerAssign,
    Offset,
    Assembly,
    TypeCarrier,
}

/// A node of the syntax tree.
#[derive(Debug)]
pub enum Node {
    /// A block `{ s1; s2; ... }`.
    Statements { statements: Vec<Node>, pos_start: Position, pos_end: Position },
    /// A number literal of the given type.
    Number { token: Token, value_type: ValueType },
    /// A string literal.
    String { token: Token },
    /// A character literal.
    Char { value: char, pos_start: Position, pos_end: Position },
    /// A list `[<type> e1, e2, ...]`, or `[<type>; n]` with no elements.
    List {
        length: usize,
        elements: Vec<Node>,
        is_literal: bool,
        element_type: ValueType,
        pos_start: Position,
        pos_end: Position,
    },
    /// `left op right`.
    BinOp { left: Box<Node>, op: Token, right: Box<Node> },
    /// `op node`.
    UnaryOp { op: Token, node: Box<Node> },
    VarDeclaration(VarDeclarationNode),
    VarAssign(VarAssignNode),
    VarAccess(VarAccessNode),
    VarTypedAccess(VarTypedAccessNode),
    VarTypedAssign(VarTypedAssignNode),
    /// `fun name(args): return_type { body }`.
    FunctionDef {
        name: String,
        args: Vec<(String, ValueType)>,
        return_type: ValueType,
        body: Box<Node>,
        pos_start: Position,
    },
    /// `fun name(args): return_type`, with no body.
    FunctionDecl {
        name: String,
        args: Vec<(String, ValueType)>,
        return_type: ValueType,
        pos_start: Position,
        pos_end: Position,
    },
    /// A call of the function called `name`.
    Call { name: String, args: Vec<Node>, pos_start: Position },
    /// `return [value]`.
    Return { value: Option<Box<Node>>, pos_start: Position, pos_end: Position },
    Break { pos_start: Position, pos_end: Position },
    Continue { pos_start: Position, pos_end: Position },
    /// `syscall[a, b, c, d]`.
    Syscall { args: Vec<Node>, pos_start: Position, pos_end: Position },
    While(WhileNode),
    /// `for init; condition; next { body }`.
    For { init: Box<Node>, condition: Box<Node>, next: Box<Node>, body: Box<Node> },
    /// `if c1 { s1 } else if c2 { s2 } ... [else { s }]`: the cases are pairs
    /// of a condition and its statements.
    If { cases: Vec<(Node, Node)>, else_case: Option<Box<Node>> },
    /// `node as cast_type`.
    Cast { node: Box<Node>, cast_type: ValueType, pos_end: Position },
    /// `const name: value_type = value`.
    ConstDef { name: String, value: Box<Node>, value_type: ValueType, pos_start: Position },
    /// `sizeof[value_type]`.
    SizeOf { value_type: ValueType, pos_start: Position, pos_end: Position },
    /// `static [mut] name: value_type = value`.
    StaticDef {
        name: String,
        value_type: ValueType,
        value: Box<Node>,
        is_mutable: bool,
        pos_start: Position,
    },
    /// `struct name { field: type, ... }`.
    StructDef { name: String, fields: Vec<(String, ValueType)>, pos_start: Position, pos_end: Position },
    /// A read of `bytes` bytes at the address `node`.
    ReadBytes { node: Box<Node>, bytes: ValueSize, pos_end: Position },
    /// `*node`.
    Dereference { node: Box<Node> },
    /// The statements of an imported module.
    Import { node: Box<Node> },
    MacroDef { pos_start: Position, pos_end: Position },
    /// A statement with no effect.
    Ignored { pos_start: Position, pos_end: Position },
    /// `node.accessor`.
    Accessor { node: Box<Node>, accessor: String, pos_end: Position },
    /// A store of `value` at the address `ptr`, which points to `pointee_type`.
    PointerAssign { ptr: Box<Node>, pointee_type: ValueType, value: Box<Node> },
    /// The address `right` elements of `pointee_type` past `left`.
    Offset { left: Box<Node>, right: Box<Node>, pointee_type: ValueType },
    /// `asm[code]`.
    Assembly { code: String, pos_start: Position, pos_end: Position },
    /// A type, as the parser hands it between its functions.
    TypeCarrier { carried_type: ValueType },
}

/// A node as a value.
pub enum SpecNode {
    Statements { statements: Seq<SpecNode>, pos_start: SpecPosition, pos_end: SpecPosition },
    Number { token: SpecToken, value_type: SpecType },
    String { token: SpecToken },
    Char { value: char, pos_start: SpecPosition, pos_end: SpecPosition },
    List {
        length: usize,
        elements: Seq<SpecNode>,
        is_literal: bool,
        element_type: SpecType,
        pos_start: SpecPosition,
        pos_end: SpecPosition,
    },
    BinOp { left: Box<SpecNode>, op: SpecToken, right: Box<SpecNode> },
    UnaryOp { op: SpecToken, node: Box<SpecNode> },
    VarDeclaration { name: Seq<char>, var_type: SpecType, value: Box<SpecNode>, is_mutable: bool, pos_start: SpecPosition },
    VarAssign { name: Seq<char>, value: Box<SpecNode>, pos_start: SpecPosition },
    VarAccess { name: Seq<char>, pos_start: SpecPosition, pos_end: SpecPosition },
    VarTypedAccess { name: Seq<char>, value_type: SpecType, pos_start: SpecPosition, pos_end: SpecPosition },
    VarTypedAssign { name: Seq<char>, value: Box<SpecNode>, value_type: SpecType, pos_start: SpecPosition },
    FunctionDef {
        name: Seq<char>,
        args: Seq<(Seq<char>, SpecType)>,
        return_type: SpecType,
        body: Box<SpecNode>,
        pos_start: SpecPosition,
    },
    FunctionDecl {
        name: Seq<char>,
        args: Seq<(Seq<char>, SpecType)>,
        return_type: SpecType,
        pos_start: SpecPosition,
        pos_end: SpecPosition,
    },
    Call { name: Seq<char>, args: Seq<SpecNode>, pos_start: SpecPosition },
    Return { value: Option<Box<SpecNode>>, pos_start: SpecPosition, pos_end: SpecPosition },
    Break { pos_start: SpecPosition, pos_end: SpecPosition },
    Continue { pos_start: SpecPosition, pos_end: SpecPosition },
    Syscall { args: Seq<SpecNode>, pos_start: SpecPosition, pos_end: SpecPosition },
    While { condition: Box<SpecNode>, body: Box<SpecNode> },
    For { init: Box<SpecNode>, condition: Box<SpecNode>, next: Box<SpecNode>, body: Box<SpecNode> },
    If { cases: Seq<(SpecNode, SpecNode)>, else_case: Option<Box<SpecNode>> },
    Cast { node: Box<SpecNode>, cast_type: SpecType, pos_end: SpecPosition },
    ConstDef { name: Seq<char>, value: Box<SpecNode>, value_type: SpecType, pos_start: SpecPosition },
    SizeOf { value_type: SpecType, pos_start: SpecPosition, pos_end: SpecPosition },
    StaticDef { name: Seq<char>, value_type: SpecType, value: Box<SpecNode>, is_mutable: bool, pos_start: SpecPosition },
    StructDef { name: Seq<char>, fields: Seq<(Seq<char>, SpecType)>, pos_start: SpecPosition, pos_end: SpecPosition },
    ReadBytes { node: Box<SpecNode>, bytes: ValueSize, pos_end: SpecPosition },
    Dereference { node: Box<SpecNode> },
    Import { node: Box<SpecNode> },
    MacroDef { pos_start: SpecPosition, pos_end: SpecPosition },
    Ignored { pos_start: SpecPosition, pos_end: SpecPosition },
    Accessor { node: Box<SpecNode>, accessor: Seq<char>, pos_end: SpecPosition },
    PointerAssign { ptr: Box<SpecNode>, pointee_type: SpecType, value: Box<SpecNode> },
    Offset { left: Box<SpecNode>, right: Box<SpecNode>, pointee_type: SpecType },
    Assembly { code: Seq<char>, pos_start: SpecPosition, pos_end: SpecPosition },
    TypeCarrier { carried_type: SpecType },
}

/// The start of no file.
pub open spec fn empty_pos() -> SpecPosition {
    SpecPosition { index: 0, line: 0, col: 0, file_path: Seq::empty() }
}

/// Named types (arguments or fields) as values.
pub open spec fn args_view(s: Seq<(String, ValueType)>) -> Seq<(Seq<char>, SpecType)> {
    Seq::new(s.len(), |i: int| (s[i].0@, s[i].1@))
}

/// The nodes in `s`, each as a value.
pub open spec fn nodes_view(s: Seq<Node>) -> Seq<SpecNode>
    decreases s,
{
    if s.len() == 0 {
        Seq::empty()
    } else {
        nodes_view(s.drop_last()).push(s.last().spec_view())
    }
}

/// The cases of an `if`, each as a pair of values.
pub open spec fn cases_view(s: Seq<(Node, Node)>) -> Seq<(SpecNode, SpecNode)>
    decreases s,
{
    if s.len() == 0 {
        Seq::empty()
    } else {
        cases_view(s.drop_last()).push((s.last().0.spec_view(), s.last().1.spec_view()))
    }
}

impl Node {
    pub open spec fn spec_view(self) -> SpecNode
        decreases self,
    {
        match self {
            Node::Statements { statements, pos_start, pos_end } =>
                SpecNode::Statements { statements: nodes_view(statements@), pos_start: pos_start@, pos_end: pos_end@ },
            Node::Number { token, value_type } => SpecNode::Number { token: token@, value_type: value_type@ },
            Node::String { token } => SpecNode::String { token: token@ },
            Node::Char { value, pos_start, pos_end } =>
                SpecNode::Char { value, pos_start: pos_start@, pos_end: pos_end@ },
            Node::List { length, elements, is_literal, element_type, pos_start, pos_end } => SpecNode::List {
                length,
                elements: nodes_view(elements@),
                is_literal,
                element_type: element_type@,
                pos_start: pos_start@,
                pos_end: pos_end@,
            },
            Node::BinOp { left, op, right } =>
                SpecNode::BinOp { left: Box::new(left.spec_view()), op: op@, right: Box::new(right.spec_view()) },
            Node::UnaryOp { op, node } => SpecNode::UnaryOp { op: op@, node: Box::new(node.spec_view()) },
            Node::VarDeclaration(n) => SpecNode::VarDeclaration {
                name: n.var_name@,
                var_type: n.var_type@,
                value: Box::new(n.value_node.spec_view()),
                is_mutable: n.is_mutable,
                pos_start: n.pos_start@,
            },
            Node::VarAssign(n) => SpecNode::VarAssign {
                name: n.var_name@,
                value: Box::new(n.value_node.spec_view()),
                pos_start: n.pos_start@,
            },
            Node::VarAccess(n) => SpecNode::VarAccess { name: n.var_name@, pos_start: n.pos_start@, pos_end: n.pos_end@ },
            Node::VarTypedAccess(n) => SpecNode::VarTypedAccess {
                name: n.var_name@,
                value_type: n.value_type@,
                pos_start: n.pos_start@,
                pos_end: n.pos_end@,
            },
            Node::VarTypedAssign(n) => SpecNode::VarTypedAssign {
                name: n.var_name@,
                value: Box::new(n.value_node.spec_view()),
                value_type: n.value_type@,
                pos_start: n.pos_start@,
            },
            Node::FunctionDef { name, args, return_type, body, pos_start } => SpecNode::FunctionDef {
                name: name@,
                args: args_view(args@),
                return_type: return_type@,
                body: Box::new(body.spec_view()),
                pos_start: pos_start@,
            },
            Node::FunctionDecl { name, args, return_type, pos_start, pos_end } => SpecNode::FunctionDecl {
                name: name@,
                args: args_view(args@),
                return_type: return_type@,
                pos_start: pos_start@,
                pos_end: pos_end@,
            },
            Node::Call { name, args, pos_start } =>
                SpecNode::Call { name: name@, args: nodes_view(args@), pos_start: pos_start@ },
            Node::Return { value, pos_start, pos_end } => SpecNode::Return {
                value: match value {
                    Some(v) => Some(Box::new(v.spec_view())),
                    None => None,
                },
                pos_start: pos_start@,
                pos_end: pos_end@,
            },
            Node::Break { pos_start, pos_end } => SpecNode::Break { pos_start: pos_start@, pos_end: pos_end@ },
            Node::Continue { pos_start, pos_end } => SpecNode::Continue { pos_start: pos_start@, pos_end: pos_end@ },
            Node::Syscall { args, pos_start, pos_end } =>
                SpecNode::Syscall { args: nodes_view(args@), pos_start: pos_start@, pos_end: pos_end@ },
            Node::While(w) => SpecNode::While {
                condition: Box::new(w.condition_node.spec_view()),
                body: Box::new(w.body_node.spec_view()),
            },
            Node::For { init, condition, next, body } => SpecNode::For {
                init: Box::new(init.spec_view()),
                condition: Box::new(condition.spec_view()),
                next: Box::new(next.spec_view()),
                body: Box::new(body.spec_view()),
            },
            Node::If { cases, else_case } => SpecNode::If {
                cases: cases_view(cases@),
                else_case: match else_case {
                    Some(e) => Some(Box::new(e.spec_view())),
                    None => None,
                },
            },
            Node::Cast { node, cast_type, pos_end } =>
                SpecNode::Cast { node: Box::new(node.spec_view()), cast_type: cast_type@, pos_end: pos_end@ },
            Node::ConstDef { name, value, value_type, pos_start } => SpecNode::ConstDef {
                name: name@,
                value: Box::new(value.spec_view()),
                value_type: value_type@,
                pos_start: pos_start@,
            },
            Node::SizeOf { value_type, pos_start, pos_end } =>
                SpecNode::SizeOf { value_type: value_type@, pos_start: pos_start@, pos_end: pos_end@ },
            Node::StaticDef { name, value_type, value, is_mutable, pos_start } => SpecNode::StaticDef {
                name: name@,
                value_type: value_type@,
                value: Box::new(value.spec_view()),
                is_mutable,
                pos_start: pos_start@,
            },
            Node::StructDef { name, fields, pos_start, pos_end } => SpecNode::StructDef {
                name: name@,
                fields: args_view(fields@),
                pos_start: pos_start@,
                pos_end: pos_end@,
            },
            Node::ReadBytes { node, bytes, pos_end } =>
                SpecNode::ReadBytes { node: Box::new(node.spec_view()), bytes, pos_end: pos_end@ },
            Node::Dereference { node } => SpecNode::Dereference { node: Box::new(node.spec_view()) },
            Node::Import { node } => SpecNode::Import { node: Box::new(node.spec_view()) },
            Node::MacroDef { pos_start, pos_end } => SpecNode::MacroDef { pos_start: pos_start@, pos_end: pos_end@ },
            Node::Ignored { pos_start, pos_end } => SpecNode::Ignored { pos_start: pos_start@, pos_end: pos_end@ },
            Node::Accessor { node, accessor, pos_end } =>
                SpecNode::Accessor { node: Box::new(node.spec_view()), accessor: accessor@, pos_end: pos_end@ },
            Node::PointerAssign { ptr, pointee_type, value } => SpecNode::PointerAssign {
                ptr: Box::new(ptr.spec_view()),
                pointee_type: pointee_type@,
                value: Box::new(value.spec_view()),
            },
            Node::Offset { left, right, pointee_type } => SpecNode::Offset {
                left: Box::new(left.spec_view()),
                right: Box::new(right.spec_view()),
                pointee_type: pointee_type@,
            },
            Node::Assembly { code, pos_start, pos_end } =>
                SpecNode::Assembly { code: code@, pos_start: pos_start@, pos_end: pos_end@ },
            Node::TypeCarrier { carried_type } => SpecNode::TypeCarrier { carried_type: carried_type@ },
        }
    }
}

impl View for Node {
    type V = SpecNode;

    open spec fn view(&self) -> SpecNode {
        self.spec_view()
    }
}

impl SpecNode {
    pub open spec fn node_type(self) -> NodeType {
        match self {
            SpecNode::Statements { .. } => NodeType::Statements,
            SpecNode::Number { .. } => NodeType::Number,
            SpecNode::String { .. } => NodeType::String,
            SpecNode::Char { .. } => NodeType::Char,
            SpecNode::List { .. } => NodeType::List,
            SpecNode::BinOp { .. } => NodeType::BinOp,
            SpecNode::UnaryOp { .. } => NodeType::UnaryOp,
            SpecNode::VarDeclaration { .. } => NodeType::VarDeclaration,
            SpecNode::VarAssign { .. } => NodeType::VarAssign,
            SpecNode::VarAccess { .. } => NodeType::VarAccess,
            SpecNode::VarTypedAccess { .. } => NodeType::VarTypedAccess,
            SpecNode::VarTypedAssign { .. } => NodeType::VarTypedAssign,
            SpecNode::FunctionDef { .. } => NodeType::FunctionDef,
            SpecNode::FunctionDecl { .. } => NodeType::FunctionDecl,
            SpecNode::Call { .. } => NodeType::Call,
            SpecNode::Return { .. } => NodeType::Return,
            SpecNode::Break { .. } => NodeType::Break,
            SpecNode::Continue { .. } => NodeType::Continue,
            SpecNode::Syscall { .. } => NodeType::Syscall,
            SpecNode::While { .. } => NodeType::While,
            SpecNode::For { .. } => NodeType::For,
            SpecNode::If { .. } => NodeType::If,
            SpecNode::Cast { .. } => NodeType::Cast,
            SpecNode::ConstDef { .. } => NodeType::ConstDef,
            SpecNode::SizeOf { .. } => NodeType::SizeOf,
            SpecNode::StaticDef { .. } => NodeType::StaticDef,
            SpecNode::StructDef { .. } => NodeType::StructDef,
            SpecNode::ReadBytes { .. } => NodeType::ReadBytes,
            SpecNode::Dereference { .. } => NodeType::Dereference,
            SpecNode::Import { .. } => NodeType::Import,
            SpecNode::MacroDef { .. } => NodeType::MacroDef,
            SpecNode::Ignored { .. } => NodeType::Ignored,
            SpecNode::Accessor { .. } => NodeType::Accessor,
            SpecNode::PointerAssign { .. } => NodeType::PointerAssign,
            SpecNode::Offset { .. } => NodeType::Offset,
            SpecNode::Assembly { .. } => NodeType::Assembly,
            SpecNode::TypeCarrier { .. } => NodeType::TypeCarrier,
        }
    }

    /// Where the node starts in the source.
    pub open spec fn pos_start(self) -> SpecPosition
        decreases self,
    {
        match self {
            SpecNode::Statements { pos_start, .. } => pos_start,
            SpecNode::Number { token, .. } => token.pos_start,
            SpecNode::String { token } => token.pos_start,
            SpecNode::Char { pos_start, .. } => pos_start,
            SpecNode::List { pos_start, .. } => pos_start,
            SpecNode::BinOp { left, .. } => left.pos_start(),
            SpecNode::UnaryOp { op, .. } => op.pos_start,
            SpecNode::VarDeclaration { pos_start, .. } => pos_start,
            SpecNode::VarAssign { pos_start, .. } => pos_start,
            SpecNode::VarAccess { pos_start, .. } => pos_start,
            SpecNode::VarTypedAccess { pos_start, .. } => pos_start,
            SpecNode::VarTypedAssign { pos_start, .. } => pos_start,
            SpecNode::FunctionDef { pos_start, .. } => pos_start,
            SpecNode::FunctionDecl { pos_start, .. } => pos_start,
            SpecNode::Call { pos_start, .. } => pos_start,
            SpecNode::Return { pos_start, .. } => pos_start,
            SpecNode::Break { pos_start, .. } => pos_start,
            SpecNode::Continue { pos_start, .. } => pos_start,
            SpecNode::Syscall { pos_start, .. } => pos_start,
            SpecNode::While { condition, .. } => condition.pos_start(),
            SpecNode::For { init, .. } => init.pos_start(),
            SpecNode::If { cases, else_case } => if cases.len() > 0 {
                cases[0].0.pos_start()
            } else {
                match else_case {
                    Some(e) => e.pos_start(),
                    None => empty_pos(),
                }
            },
            SpecNode::Cast { node, .. } => node.pos_start(),
            SpecNode::ConstDef { pos_start, .. } => pos_start,
            SpecNode::SizeOf { pos_start, .. } => pos_start,
            SpecNode::StaticDef { pos_start, .. } => pos_start,
            SpecNode::StructDef { pos_start, .. } => pos_start,
            SpecNode::ReadBytes { node, .. } => node.pos_start(),
            SpecNode::Dereference { node } => node.pos_start(),
            SpecNode::Import { node } => node.pos_start(),
            SpecNode::MacroDef { pos_start, .. } => pos_start,
            SpecNode::Ignored { pos_start, .. } => pos_start,
            SpecNode::Accessor { node, .. } => node.pos_start(),
            SpecNode::PointerAssign { ptr, .. } => ptr.pos_start(),
            SpecNode::Offset { left, .. } => left.pos_start(),
            SpecNode::Assembly { pos_start, .. } => pos_start,
            SpecNode::TypeCarrier { .. } => empty_pos(),
        }
    }

    /// Where the node ends in the source.
    pub open spec fn pos_end(self) -> SpecPosition
        decreases self,
    {
        match self {
            SpecNode::Statements { pos_end, .. } => pos_end,
            SpecNode::Number { token, .. } => token.pos_end,
            SpecNode::String { token } => token.pos_end,
            SpecNode::Char { pos_end, .. } => pos_end,
            SpecNode::List { pos_end, .. } => pos_end,
            SpecNode::BinOp { right, .. } => right.pos_end(),
            SpecNode::UnaryOp { node, .. } => node.pos_end(),
            SpecNode::VarDeclaration { value, .. } => value.pos_end(),
            SpecNode::VarAssign { value, .. } => value.pos_end(),
            SpecNode::VarAccess { pos_end, .. } => pos_end,
            SpecNode::VarTypedAccess { pos_end, .. } => pos_end,
            SpecNode::VarTypedAssign { value, .. } => value.pos_end(),
            SpecNode::FunctionDef { body, .. } => body.pos_end(),
            SpecNode::FunctionDecl { pos_end, .. } => pos_end,
            SpecNode::Call { pos_start, .. } => pos_start,
            SpecNode::Return { pos_end, .. } => pos_end,
            SpecNode::Break { pos_end, .. } => pos_end,
            SpecNode::Continue { pos_end, .. } => pos_end,
            SpecNode::Syscall { pos_end, .. } => pos_end,
            SpecNode::While { body, .. } => body.pos_end(),
            SpecNode::For { body, .. } => body.pos_end(),
            SpecNode::If { cases, else_case } => match else_case {
                Some(e) => e.pos_end(),
                None => if cases.len() > 0 {
                    cases[cases.len() - 1].1.pos_end()
                } else {
                    empty_pos()
                },
            },
            SpecNode::Cast { pos_end, .. } => pos_end,
            SpecNode::ConstDef { value, .. } => value.pos_end(),
            SpecNode::SizeOf { pos_end, .. } => pos_end,
            SpecNode::StaticDef { value, .. } => value.pos_end(),
            SpecNode::StructDef { pos_end, .. } => pos_end,
            SpecNode::ReadBytes { pos_end, .. } => pos_end,
            SpecNode::Dereference { node } => node.pos_end(),
            SpecNode::Import { node } => node.pos_end(),
            SpecNode::MacroDef { pos_end, .. } => pos_end,
            SpecNode::Ignored { pos_end, .. } => pos_end,
            SpecNode::Accessor { pos_end, .. } => pos_end,
            SpecNode::PointerAssign { value, .. } => value.pos_end(),
            SpecNode::Offset { right, .. } => right.pos_end(),
            SpecNode::Assembly { pos_end, .. } => pos_end,
            SpecNode::TypeCarrier { .. } => empty_pos(),
        }
    }
}

/// `nodes_view` takes each element by its view.
pub proof fn lemma_nodes_view(s: Seq<Node>)
    ensures
        nodes_view(s).len() == s.len(),
        forall|i: int| 0 <= i < s.len() ==> #[trigger] nodes_view(s)[i] == s[i]@,
    decreases s.len(),
{
    if s.len() > 0 {
        lemma_nodes_view(s.drop_last());
    }
}

/// `nodes_view` of a sequence with one more node at its end.
pub proof fn lemma_nodes_view_push(s: Seq<Node>, n: Node)
    ensures
        nodes_view(s.push(n)) == nodes_view(s).push(n@),
{
    assert(s.push(n).drop_last() =~= s);
}

/// Two sequences of nodes with equal views of their elements have equal views.
pub proof fn lemma_nodes_view_eq(s: Seq<Node>, t: Seq<Node>)
    requires
        s.len() == t.len(),
        forall|i: int| 0 <= i < s.len() ==> #[trigger] s[i]@ == t[i]@,
    ensures
        nodes_view(s) == nodes_view(t),
{
    lemma_nodes_view(s);
    lemma_nodes_view(t);
    assert(nodes_view(s) =~= nodes_view(t));
}

/// `cases_view` takes each pair by the views of its nodes.
pub proof fn lemma_cases_view(s: Seq<(Node, Node)>)
    ensures
        cases_view(s).len() == s.len(),
        forall|i: int| 0 <= i < s.len() ==> #[trigger] cases_view(s)[i] == (s[i].0@, s[i].1@),
    decreases s.len(),
{
    if s.len() > 0 {
        lemma_cases_view(s.drop_last());
    }
}

/// `cases_view` of a sequence with one more pair at its end.
pub proof fn lemma_cases_view_push(s: Seq<(Node, Node)>, c: (Node, Node))
    ensures
        cases_view(s.push(c)) == cases_view(s).push((c.0@, c.1@)),
{
    assert(s.push(c).drop_last() =~= s);
}

/// A copy of each node in `v`, in order.
pub fn clone_nodes(v: &Vec<Node>) -> (r: Vec<Node>)
    ensures
        nodes_view(r@) == nodes_view(v@),
    decreases v,
{
    let mut r: Vec<Node> = Vec::new();
    let mut i: usize = 0;
    while i < v.len()
        invariant
            i <= v.len(),
            r@.len() == i,
            forall|j: int| 0 <= j < i ==> #[trigger] r@[j]@ == v@[j]@,
        decreases v.len() - i,
    {
        proof {
            assert(decreases_to!(v => v@));
            assert(decreases_to!(v@ => v@[i as int]));
        }
        r.push(v[i].box_clone());
        i = i + 1;
    }
    proof {
        lemma_nodes_view_eq(r@, v@);
    }
    r
}

/// A copy of each named type in `v`, in order.
pub fn clone_args(v: &Vec<(String, ValueType)>) -> (r: Vec<(String, ValueType)>)
    ensures
        args_view(r@) == args_view(v@),
{
    let mut r: Vec<(String, ValueType)> = Vec::new();
    let mut i: usize = 0;
    while i < v.len()
        invariant
            i <= v.len(),
            r@.len() == i,
            forall|j: int| 0 <= j < i ==> (#[trigger] r@[j]).0@ == v@[j].0@ && r@[j].1@ == v@[j].1@,
        decreases v.len() - i,
    {
        r.push((v[i].0.clone(), v[i].1.box_clone()));
        i = i + 1;
    }
    assert(args_view(r@) =~= args_view(v@));
    r
}

/// A copy of each case of an `if`, in order.
pub fn clone_cases(v: &Vec<(Node, Node)>) -> (r: Vec<(Node, Node)>)
    ensures
        cases_view(r@) == cases_view(v@),
    decreases v,
{
    let mut r: Vec<(Node, Node)> = Vec::new();
    let mut i: usize = 0;
    while i < v.len()
        invariant
            i <= v.len(),
            r@.len() == i,
            forall|j: int| 0 <= j < i ==> (#[trigger] r@[j]).0@ == v@[j].0@ && r@[j].1@ == v@[j].1@,
        decreases v.len() - i,
    {
        proof {
            assert(decreases_to!(v => v@));
            assert(decreases_to!(v@ => v@[i as int]));
        }
        let c = (v[i].0.box_clone(), v[i].1.box_clone());
        r.push(c);
        i = i + 1;
    }
    proof {
        lemma_cases_view(r@);
        lemma_cases_view(v@);
        assert(cases_view(r@) =~= cases_view(v@));
    }
    r
}

impl Node {
    pub fn node_type(&self) -> (r: NodeType)
        ensures
            r == self@.node_type(),
    {
        match self {
            Node::Statements { .. } => NodeType::Statements,
            Node::Number { .. } => NodeType::Number,
            Node::String { .. } => NodeType::String,
            Node::Char { .. } => NodeType::Char,
            Node::List { .. } => NodeType::List,
            Node::BinOp { .. } => NodeType::BinOp,
            Node::UnaryOp { .. } => NodeType::UnaryOp,
            Node::VarDeclaration(..) => NodeType::VarDeclaration,
            Node::VarAssign(..) => NodeType::VarAssign,
            Node::VarAccess(..) => NodeType::VarAccess,
            Node::VarTypedAccess(..) => NodeType::VarTypedAccess,
            Node::VarTypedAssign(..) => NodeType::VarTypedAssign,
            Node::FunctionDef { .. } => NodeType::FunctionDef,
            Node::FunctionDecl { .. } => NodeType::FunctionDecl,
            Node::Call { .. } => NodeType::Call,
            Node::Return { .. } => NodeType::Return,
            Node::Break { .. } => NodeType::Break,
            Node::Continue { .. } => NodeType::Continue,
            Node::Syscall { .. } => NodeType::Syscall,
            Node::While(..) => NodeType::While,
            Node::For { .. } => NodeType::For,
            Node::If { .. } => NodeType::If,
            Node::Cast { .. } => NodeType::Cast,
            Node::ConstDef { .. } => NodeType::ConstDef,
            Node::SizeOf { .. } => NodeType::SizeOf,
            Node::StaticDef { .. } => NodeType::StaticDef,
            Node::StructDef { .. } => NodeType::StructDef,
            Node::ReadBytes { .. } => NodeType::ReadBytes,
            Node::Dereference { .. } => NodeType::Dereference,
            Node::Import { .. } => NodeType::Import,
            Node::MacroDef { .. } => NodeType::MacroDef,
            Node::Ignored { .. } => NodeType::Ignored,
            Node::Accessor { .. } => NodeType::Accessor,
            Node::PointerAssign { .. } => NodeType::PointerAssign,
            Node::Offset { .. } => NodeType::Offset,
            Node::Assembly { .. } => NodeType::Assembly,
            Node::TypeCarrier { .. } => NodeType::TypeCarrier,
        }
    }

    /// Where the node starts in the source.
    pub fn pos_start(&self) -> (r: Position)
        ensures
            r@ == self@.pos_start(),
        decreases self,
    {
        match self {
            Node::Statements { pos_start, .. } => pos_start.clone(),
            Node::Number { token, .. } => token.pos_start.clone(),
            Node::String { token } => token.pos_start.clone(),
            Node::Char { pos_start, .. } => pos_start.clone(),
            Node::List { pos_start, .. } => pos_start.clone(),
            Node::BinOp { left, .. } => left.pos_start(),
            Node::UnaryOp { op, .. } => op.pos_start.clone(),
            Node::VarDeclaration(n) => n.pos_start.clone(),
            Node::VarAssign(n) => n.pos_start.clone(),
            Node::VarAccess(n) => n.pos_start.clone(),
            Node::VarTypedAccess(n) => n.pos_start.clone(),
            Node::VarTypedAssign(n) => n.pos_start.clone(),
            Node::FunctionDef { pos_start, .. } => pos_start.clone(),
            Node::FunctionDecl { pos_start, .. } => pos_start.clone(),
            Node::Call { pos_start, .. } => pos_start.clone(),
            Node::Return { pos_start, .. } => pos_start.clone(),
            Node::Break { pos_start, .. } => pos_start.clone(),
            Node::Continue { pos_start, .. } => pos_start.clone(),
            Node::Syscall { pos_start, .. } => pos_start.clone(),
            Node::While(w) => w.condition_node.pos_start(),
            Node::For { init, .. } => init.pos_start(),
            Node::If { cases, else_case } => {
                proof {
                    lemma_cases_view(cases@);
                }
                if cases.len() > 0 {
                    proof {
                        assert(decreases_to!(cases => cases@));
                        assert(decreases_to!(cases@ => cases@[0]));
                    }
                    cases[0].0.pos_start()
                } else {
                    match else_case {
                        Some(e) => e.pos_start(),
                        None => Position::empty(),
                    }
                }
            },
            Node::Cast { node, .. } => node.pos_start(),
            Node::ConstDef { pos_start, .. } => pos_start.clone(),
            Node::SizeOf { pos_start, .. } => pos_start.clone(),
            Node::StaticDef { pos_start, .. } => pos_start.clone(),
            Node::StructDef { pos_start, .. } => pos_start.clone(),
            Node::ReadBytes { node, .. } => node.pos_start(),
            Node::Dereference { node } => node.pos_start(),
            Node::Import { node } => node.pos_start(),
            Node::MacroDef { pos_start, .. } => pos_start.clone(),
            Node::Ignored { pos_start, .. } => pos_start.clone(),
            Node::Accessor { node, .. } => node.pos_start(),
            Node::PointerAssign { ptr, .. } => ptr.pos_start(),
            Node::Offset { left, .. } => left.pos_start(),
            Node::Assembly { pos_start, .. } => pos_start.clone(),
            Node::TypeCarrier { .. } => Position::empty(),
        }
    }

    /// Where the node ends in the source.
    pub fn pos_end(&self) -> (r: Position)
        ensures
            r@ == self@.pos_end(),
        decreases self,
    {
        match self {
            Node::Statements { pos_end, .. } => pos_end.clone(),
            Node::Number { token, .. } => token.pos_end.clone(),
            Node::String { token } => token.pos_end.clone(),
            Node::Char { pos_end, .. } => pos_end.clone(),
            Node::List { pos_end, .. } => pos_end.clone(),
            Node::BinOp { right, .. } => right.pos_end(),
            Node::UnaryOp { node, .. } => node.pos_end(),
            Node::VarDeclaration(n) => n.value_node.pos_end(),
            Node::VarAssign(n) => n.value_node.pos_end(),
            Node::VarAccess(n) => n.pos_end.clone(),
            Node::VarTypedAccess(n) => n.pos_end.clone(),
            Node::VarTypedAssign(n) => n.value_node.pos_end(),
            Node::FunctionDef { body, .. } => body.pos_end(),
            Node::FunctionDecl { pos_end, .. } => pos_end.clone(),
            Node::Call { pos_start, .. } => pos_start.clone(),
            Node::Return { pos_end, .. } => pos_end.clone(),
            Node::Break { pos_end, .. } => pos_end.clone(),
            Node::Continue { pos_end, .. } => pos_end.clone(),
            Node::Syscall { pos_end, .. } => pos_end.clone(),
            Node::While(w) => w.body_node.pos_end(),
            Node::For { body, .. } => body.pos_end(),
            Node::If { cases, else_case } => {
                proof {
                    lemma_cases_view(cases@);
                }
                match else_case {
                    Some(e) => e.pos_end(),
                    None => {
                        if cases.len() > 0 {
                            proof {
                                assert(decreases_to!(cases => cases@));
                                assert(decreases_to!(cases@ => cases@[cases@.len() - 1]));
                            }
                            cases[cases.len() - 1].1.pos_end()
                        } else {
                            Position::empty()
                        }
                    },
                }
            },
            Node::Cast { pos_end, .. } => pos_end.clone(),
            Node::ConstDef { value, .. } => value.pos_end(),
            Node::SizeOf { pos_end, .. } => pos_end.clone(),
            Node::StaticDef { value, .. } => value.pos_end(),
            Node::StructDef { pos_end, .. } => pos_end.clone(),
            Node::ReadBytes { pos_end, .. } => pos_end.clone(),
            Node::Dereference { node } => node.pos_end(),
            Node::Import { node } => node.pos_end(),
            Node::MacroDef { pos_end, .. } => pos_end.clone(),
            Node::Ignored { pos_end, .. } => pos_end.clone(),
            Node::Accessor { pos_end, .. } => pos_end.clone(),
            Node::PointerAssign { value, .. } => value.pos_end(),
            Node::Offset { right, .. } => right.pos_end(),
            Node::Assembly { pos_end, .. } => pos_end.clone(),
            Node::TypeCarrier { .. } => Position::empty(),
        }
    }

    /// A copy of this node.
    pub fn box_clone(&self) -> (r: Node)
        ensures
            r@ == self@,
        decreases self,
    {
        match self {
            Node::Statements { statements, pos_start, pos_end } => Node::Statements {
                statements: clone_nodes(statements),
                pos_start: pos_start.clone(),
                pos_end: pos_end.clone(),
            },
            Node::Number { token, value_type } => Node::Number { token: token.clone(), value_type: value_type.box_clone() },
            Node::String { token } => Node::String { token: token.clone() },
            Node::Char { value, pos_start, pos_end } =>
                Node::Char { value: *value, pos_start: pos_start.clone(), pos_end: pos_end.clone() },
            Node::List { length, elements, is_literal, element_type, pos_start, pos_end } => Node::List {
                length: *length,
                elements: clone_nodes(elements),
                is_literal: *is_literal,
                element_type: element_type.box_clone(),
                pos_start: pos_start.clone(),
                pos_end: pos_end.clone(),
            },
            Node::BinOp { left, op, right } => Node::BinOp {
                left: Box::new(left.box_clone()),
                op: op.clone(),
                right: Box::new(right.box_clone()),
            },
            Node::UnaryOp { op, node } => Node::UnaryOp { op: op.clone(), node: Box::new(node.box_clone()) },
            Node::VarDeclaration(n) => Node::VarDeclaration(VarDeclarationNode::new(
                n.var_name.clone(),
                n.var_type.box_clone(),
                n.value_node.box_clone(),
                n.is_mutable,
                n.pos_start.clone(),
            )),
            Node::VarAssign(n) => Node::VarAssign(VarAssignNode::new(
                n.var_name.clone(),
                n.value_node.box_clone(),
                n.pos_start.clone(),
            )),
            Node::VarAccess(n) => Node::VarAccess(VarAccessNode::new(
                n.var_name.clone(),
                n.pos_start.clone(),
                n.pos_end.clone(),
            )),
            Node::VarTypedAccess(n) => Node::VarTypedAccess(VarTypedAccessNode::new(
                n.var_name.clone(),
                n.value_type.box_clone(),
                n.pos_start.clone(),
                n.pos_end.clone(),
            )),
            Node::VarTypedAssign(n) => Node::VarTypedAssign(VarTypedAssignNode::new(
                n.var_name.clone(),
                n.value_node.box_clone(),
                n.value_type.box_clone(),
                n.pos_start.clone(),
            )),
            Node::FunctionDef { name, args, return_type, body, pos_start } => Node::FunctionDef {
                name: name.clone(),
                args: clone_args(args),
                return_type: return_type.box_clone(),
                body: Box::new(body.box_clone()),
                pos_start: pos_start.clone(),
            },
            Node::FunctionDecl { name, args, return_type, pos_start, pos_end } => Node::FunctionDecl {
                name: name.clone(),
                args: clone_args(args),
                return_type: return_type.box_clone(),
                pos_start: pos_start.clone(),
                pos_end: pos_end.clone(),
            },
            Node::Call { name, args, pos_start } =>
                Node::Call { name: name.clone(), args: clone_nodes(args), pos_start: pos_start.clone() },
            Node::Return { value, pos_start, pos_end } => Node::Return {
                value: match value {
                    Some(v) => Some(Box::new(v.box_clone())),
                    None => None,
                },
                pos_start: pos_start.clone(),
                pos_end: pos_end.clone(),
            },
            Node::Break { pos_start, pos_end } => Node::Break { pos_start: pos_start.clone(), pos_end: pos_end.clone() },
            Node::Continue { pos_start, pos_end } =>
                Node::Continue { pos_start: pos_start.clone(), pos_end: pos_end.clone() },
            Node::Syscall { args, pos_start, pos_end } =>
                Node::Syscall { args: clone_nodes(args), pos_start: pos_start.clone(), pos_end: pos_end.clone() },
            Node::While(w) => Node::While(WhileNode::new(w.condition_node.box_clone(), w.body_node.box_clone())),
            Node::For { init, condition, next, body } => Node::For {
                init: Box::new(init.box_clone()),
                condition: Box::new(condition.box_clone()),
                next: Box::new(next.box_clone()),
                body: Box::new(body.box_clone()),
            },
            Node::If { cases, else_case } => Node::If {
                cases: clone_cases(cases),
                else_case: match else_case {
                    Some(e) => Some(Box::new(e.box_clone())),
                    None => None,
                },
            },
            Node::Cast { node, cast_type, pos_end } => Node::Cast {
                node: Box::new(node.box_clone()),
                cast_type: cast_type.box_clone(),
                pos_end: pos_end.clone(),
            },
            Node::ConstDef { name, value, value_type, pos_start } => Node::ConstDef {
                name: name.clone(),
                value: Box::new(value.box_clone()),
                value_type: value_type.box_clone(),
                pos_start: pos_start.clone(),
            },
            Node::SizeOf { value_type, pos_start, pos_end } => Node::SizeOf {
                value_type: value_type.box_clone(),
                pos_start: pos_start.clone(),
                pos_end: pos_end.clone(),
            },
            Node::StaticDef { name, value_type, value, is_mutable, pos_start } => Node::StaticDef {
                name: name.clone(),
                value_type: value_type.box_clone(),
                value: Box::new(value.box_clone()),
                is_mutable: *is_mutable,
                pos_start: pos_start.clone(),
            },
            Node::StructDef { name, fields, pos_start, pos_end } => Node::StructDef {
                name: name.clone(),
                fields: clone_args(fields),
                pos_start: pos_start.clone(),
                pos_end: pos_end.clone(),
            },
            Node::ReadBytes { node, bytes, pos_end } =>
                Node::ReadBytes { node: Box::new(node.box_clone()), bytes: *bytes, pos_end: pos_end.clone() },
            Node::Dereference { node } => Node::Dereference { node: Box::new(node.box_clone()) },
            Node::Import { node } => Node::Import { node: Box::new(node.box_clone()) },
            Node::MacroDef { pos_start, pos_end } => Node::MacroDef { pos_start: pos_start.clone(), pos_end: pos_end.clone() },
            Node::Ignored { pos_start, pos_end } => Node::Ignored { pos_start: pos_start.clone(), pos_end: pos_end.clone() },
            Node::Accessor { node, accessor, pos_end } => Node::Accessor {
                node: Box::new(node.box_clone()),
                accessor: accessor.clone(),
                pos_end: pos_end.clone(),
            },
            Node::PointerAssign { ptr, pointee_type, value } => Node::PointerAssign {
                ptr: Box::new(ptr.box_clone()),
                pointee_type: pointee_type.box_clone(),
                value: Box::new(value.box_clone()),
            },
            Node::Offset { left, right, pointee_type } => Node::Offset {
                left: Box::new(left.box_clone()),
                right: Box::new(right.box_clone()),
                pointee_type: pointee_type.box_clone(),
            },
            Node::Assembly { code, pos_start, pos_end } =>
                Node::Assembly { code: code.clone(), pos_start: pos_start.clone(), pos_end: pos_end.clone() },
            Node::TypeCarrier { carried_type } => Node::TypeCarrier { carried_type: carried_type.box_clone() },
        }
    }
}

} // verus!
