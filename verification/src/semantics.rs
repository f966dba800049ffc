//! The semantic validator: scopes of declared names, and the checks that
//! give each node its type and rewrite it for the code generator.
use vstd::prelude::*;
use crate::error::{self, SpecError, sem_err, sem_err_with_parent};
use crate::nodes::{Node, SpecNode, args_view, nodes_view, cases_view, empty_pos, lemma_nodes_view, lemma_nodes_view_push};
use crate::position::{Position, SpecPosition};
use crate::results::validation::{ValidationResult, VRes, vres_new, vres_register, vres_success, vres_failure, vres_success_return, opt_node_view};
use crate::symbol_table::Symbol;
use crate::nodes::var_node::declare::VarDeclarationNode;
use crate::nodes::var_node::typed_access::VarTypedAccessNode;
use crate::nodes::var_node::typed_assign::VarTypedAssignNode;
use crate::nodes::while_node::WhileNode;
use crate::values::value_type::number_type::NumberType;
use crate::values::value_type::string_type::StringType;
use crate::values::value_type::char_type::CharType;
use crate::values::value_type::ignored_type::IgnoredType;
use crate::values::value_type::pointer_type::PointerType;
use crate::values::value_type::void_type::VoidType;
use crate::values::value_type::function_type::FunctionType;
use crate::token::Token;
use crate::text::usize_to_string;
use crate::token::{SpecToken, TokenType};
use crate::values::value_size::ValueSize;
use crate::values::value_type::{ValueType, ValueTypes, SpecType, types_view, lemma_types_view};

verus! {

#[derive(Debug, PartialEq, Eq, Structural, Copy, Clone)]
pub enum ScopeType {
    Global,
    Function,
    Loop,
    Block,
}

/// A declared name as a value.
pub struct SpecSymbol {
    pub name: Seq<char>,
    pub value_type: SpecType,
    pub is_mutable: bool,
    pub pos: SpecPosition,
}

/// The validator's state as a value: a stack of scopes with their kinds,
/// the return type of the function being checked, and the structures
/// defined so far with their fields.
pub struct ValidatorState {
    pub scopes: Seq<Seq<SpecSymbol>>,
    pub scope_types: Seq<ScopeType>,
    pub fn_return: Option<SpecType>,
    pub structs: Seq<(Seq<char>, Seq<(Seq<char>, SpecType)>)>,
}

/// The latest symbol called `name` in `scope`.
pub open spec fn find_in_scope(scope: Seq<SpecSymbol>, name: Seq<char>) -> Option<SpecSymbol>
    decreases scope.len(),
{
    if scope.len() == 0 {
        None
    } else if scope.last().name == name {
        Some(scope.last())
    } else {
        find_in_scope(scope.drop_last(), name)
    }
}

/// The symbol called `name` in the innermost scope that has one.
pub open spec fn lookup(scopes: Seq<Seq<SpecSymbol>>, name: Seq<char>) -> Option<SpecSymbol>
    decreases scopes.len(),
{
    if scopes.len() == 0 {
        None
    } else {
        match find_in_scope(scopes.last(), name) {
            Some(s) => Some(s),
            None => lookup(scopes.drop_last(), name),
        }
    }
}

/// The fields of the latest structure called `name`.
pub open spec fn find_struct(structs: Seq<(Seq<char>, Seq<(Seq<char>, SpecType)>)>, name: Seq<char>) -> Option<
    Seq<(Seq<char>, SpecType)>,
>
    decreases structs.len(),
{
    if structs.len() == 0 {
        None
    } else if structs.last().0 == name {
        Some(structs.last().1)
    } else {
        find_struct(structs.drop_last(), name)
    }
}

impl ValidatorState {
    /// The stacks of scopes and of their kinds agree and are never empty.
    pub open spec fn wf(self) -> bool {
        &&& self.scopes.len() >= 1
        &&& self.scopes.len() == self.scope_types.len()
    }

    pub open spec fn get_symbol(self, name: Seq<char>) -> Option<SpecSymbol> {
        lookup(self.scopes, name)
    }

    pub open spec fn has_symbol(self, name: Seq<char>) -> bool {
        lookup(self.scopes, name) is Some
    }

    pub open spec fn is_symbol_mut(self, name: Seq<char>) -> bool {
        match lookup(self.scopes, name) {
            Some(s) => s.is_mutable,
            None => false,
        }
    }

    /// Declares `name` in the innermost scope, unless some scope has it.
    pub open spec fn declare_symbol(self, name: Seq<char>, value_type: SpecType, is_mutable: bool, pos: SpecPosition) -> ValidatorState {
        if self.scopes.len() == 0 || self.has_symbol(name) {
            self
        } else {
            ValidatorState {
                scopes: self.scopes.update(
                    self.scopes.len() - 1,
                    self.scopes.last().push(SpecSymbol { name, value_type, is_mutable, pos }),
                ),
                ..self
            }
        }
    }

    pub open spec fn push_child_scope(self, scope_type: ScopeType) -> ValidatorState {
        ValidatorState {
            scopes: self.scopes.push(Seq::empty()),
            scope_types: self.scope_types.push(scope_type),
            ..self
        }
    }

    /// The root scope is never popped.
    pub open spec fn can_pop(self) -> bool {
        self.scopes.len() != 1 && self.scope_types.len() != 1
    }

    pub open spec fn pop_child_scope(self) -> ValidatorState {
        ValidatorState {
            scopes: self.scopes.drop_last(),
            scope_types: self.scope_types.drop_last(),
            ..self
        }
    }

    pub open spec fn is_in_scope_stack(self, scope_type: ScopeType) -> bool {
        self.scope_types.contains(scope_type)
    }

    /// The return type of the function being checked, if inside one.
    pub open spec fn find_first_function(self) -> Option<SpecType> {
        if self.is_in_scope_stack(ScopeType::Function) {
            self.fn_return
        } else {
            None
        }
    }

    pub open spec fn struct_fields(self, name: Seq<char>) -> Option<Seq<(Seq<char>, SpecType)>> {
        find_struct(self.structs, name)
    }
}

/// A new validator: one global scope, no function, no structures.
pub open spec fn initial_state() -> ValidatorState {
    ValidatorState {
        scopes: seq![Seq::empty()],
        scope_types: seq![ScopeType::Global],
        fn_return: None,
        structs: Seq::empty(),
    }
}

// Laws of the symbol stack.

/// A declared name can be found again, with the type and mutability it was
/// declared with, when no scope had it before.
pub proof fn law_declare_then_get(st: ValidatorState, name: Seq<char>, t: SpecType, m: bool, pos: SpecPosition)
    requires
        st.wf(),
        !st.has_symbol(name),
    ensures
        st.declare_symbol(name, t, m, pos).has_symbol(name),
        st.declare_symbol(name, t, m, pos).get_symbol(name) == Some(SpecSymbol { name, value_type: t, is_mutable: m, pos }),
        st.declare_symbol(name, t, m, pos).is_symbol_mut(name) == m,
{
    let st2 = st.declare_symbol(name, t, m, pos);
    assert(st2.scopes.last() == st.scopes.last().push(SpecSymbol { name, value_type: t, is_mutable: m, pos }));
}

/// Declaring a name that some scope already has changes nothing.
pub proof fn law_declare_existing_unchanged(st: ValidatorState, name: Seq<char>, t: SpecType, m: bool, pos: SpecPosition)
    requires
        st.has_symbol(name),
    ensures
        st.declare_symbol(name, t, m, pos) == st,
{
}

/// `find_in_scope` in a scope with one more symbol at its end.
proof fn lemma_find_push(scope: Seq<SpecSymbol>, sym: SpecSymbol, name: Seq<char>)
    ensures
        find_in_scope(scope.push(sym), name) == (if sym.name == name { Some(sym) } else { find_in_scope(scope, name) }),
{
    assert(scope.push(sym).drop_last() =~= scope);
}

/// `lookup` in a stack with one more scope at its end.
proof fn lemma_lookup_push(scopes: Seq<Seq<SpecSymbol>>, scope: Seq<SpecSymbol>, name: Seq<char>)
    ensures
        lookup(scopes.push(scope), name) == (match find_in_scope(scope, name) {
            Some(s) => Some(s),
            None => lookup(scopes, name),
        }),
{
    assert(scopes.push(scope).drop_last() =~= scopes);
}

/// Declaring a name keeps every name that was declared before, and finds
/// every other name as before.
pub proof fn law_declare_keeps_others(st: ValidatorState, name: Seq<char>, t: SpecType, m: bool, pos: SpecPosition, other: Seq<char>)
    requires
        st.wf(),
        other != name,
    ensures
        st.declare_symbol(name, t, m, pos).get_symbol(other) == st.get_symbol(other),
{
    if !st.has_symbol(name) {
        let last = st.scopes.last();
        let sym = SpecSymbol { name, value_type: t, is_mutable: m, pos };
        let st2 = st.declare_symbol(name, t, m, pos);
        lemma_find_push(last, sym, other);
        assert(st2.scopes =~= st.scopes.drop_last().push(last.push(sym)));
        assert(st.scopes =~= st.scopes.drop_last().push(last));
        lemma_lookup_push(st.scopes.drop_last(), last.push(sym), other);
        lemma_lookup_push(st.scopes.drop_last(), last, other);
    }
}

/// Entering a scope hides no name and adds none.
pub proof fn law_push_keeps_symbols(st: ValidatorState, scope_type: ScopeType, name: Seq<char>)
    ensures
        st.push_child_scope(scope_type).get_symbol(name) == st.get_symbol(name),
{
    lemma_lookup_push(st.scopes, Seq::empty(), name);
}

/// Leaving a scope forgets what was declared in it: entering a scope,
/// declaring a name there and leaving it gives back the state before.
pub proof fn law_push_declare_pop(st: ValidatorState, scope_type: ScopeType, name: Seq<char>, t: SpecType, m: bool, pos: SpecPosition)
    requires
        st.wf(),
    ensures
        st.push_child_scope(scope_type).declare_symbol(name, t, m, pos).can_pop(),
        st.push_child_scope(scope_type).declare_symbol(name, t, m, pos).pop_child_scope() == st,
{
    let st1 = st.push_child_scope(scope_type);
    let st2 = st1.declare_symbol(name, t, m, pos);
    assert(st2.scopes.drop_last() =~= st.scopes);
    assert(st2.scope_types.drop_last() =~= st.scope_types);
}


// The checks, as a function from a state and a node to the new state and
// the result; `None` where checking the node stops the program.

/// Declares each argument, mutable, at `pos`.
pub open spec fn declare_args(st: ValidatorState, args: Seq<(Seq<char>, SpecType)>, pos: SpecPosition) -> ValidatorState
    decreases args.len(),
{
    if args.len() == 0 {
        st
    } else {
        declare_args(st, args.drop_last(), pos).declare_symbol(args.last().0, args.last().1, true, pos)
    }
}

/// The sum of the operand sizes of the fields, where each has a size.
pub open spec fn fields_size(fields: Seq<(Seq<char>, SpecType)>) -> Option<nat>
    decreases fields.len(),
{
    if fields.len() == 0 {
        Some(0)
    } else {
        match (fields_size(fields.drop_last()), fields.last().1.size()) {
            (Some(n), Some(z)) => Some(n + (z.spec_size_in_bytes() as nat)),
            _ => None,
        }
    }
}

/// The offset and type of the first field called `name` after the first `i`
/// fields, which lie `offset` bytes in: `Some(None)` where there is none,
/// `None` where a field before it has no size or the offset overflows.
pub open spec fn field_offset(fields: Seq<(Seq<char>, SpecType)>, name: Seq<char>, i: int, offset: nat) -> Option<
    Option<(nat, SpecType)>,
>
    decreases fields.len() - i,
{
    if i < 0 || i >= fields.len() {
        Some(None)
    } else if fields[i].0 == name {
        Some(Some((offset, fields[i].1)))
    } else {
        match fields[i].1.size() {
            None => None,
            Some(z) => if offset + z.spec_size_in_bytes() > usize::MAX {
                None
            } else {
                field_offset(fields, name, i + 1, offset + (z.spec_size_in_bytes() as nat))
            },
        }
    }
}

/// A token of type `U64` with `value`, as the validator makes them.
pub open spec fn number_token(value: Seq<char>, pos_start: SpecPosition, pos_end: SpecPosition) -> SpecToken {
    SpecToken { tok_type: TokenType::U64, tok_value: Some(value), pos_start, pos_end, flags: 0 }
}

/// The outcome of a loop over the nodes `s` from index `i`: the state, the
/// result, the checked nodes so far, and whether it stopped on an error.
pub open spec fn v_seq(st: ValidatorState, res: VRes, s: Seq<SpecNode>, i: int, acc: Seq<SpecNode>) -> Option<
    (ValidatorState, VRes, Seq<SpecNode>, bool),
>
    decreases s, s.len() - i,
{
    if i < 0 || i >= s.len() {
        Some((st, res, acc, false))
    } else {
        match spec_validate(st, s[i]) {
            None => None,
            Some((st1, child)) => {
                let (res1, _t, n) = vres_register(res, child);
                if res1.error is Some {
                    Some((st1, res1, acc, true))
                } else {
                    match n {
                        None => None,
                        Some(n) => v_seq(st1, res1, s, i + 1, acc.push(n)),
                    }
                }
            },
        }
    }
}

/// The outcome of checking the elements of a list against `element_type`.
pub open spec fn v_list(st: ValidatorState, res: VRes, s: Seq<SpecNode>, i: int, element_type: SpecType) -> Option<
    (ValidatorState, VRes, bool),
>
    decreases s, s.len() - i,
{
    if i < 0 || i >= s.len() {
        Some((st, res, false))
    } else {
        match spec_validate(st, s[i]) {
            None => None,
            Some((st1, child)) => {
                let (res1, t, _n) = vres_register(res, child);
                if res1.error is Some {
                    Some((st1, res1, true))
                } else {
                    match t {
                        None => None,
                        Some(t) => if !t.type_eq(element_type) {
                            Some((st1, vres_failure(res1, sem_err(s[i].pos_start(), s[i].pos_end(), "Type "@ + t.display()
                                + ", is incompatible with list type "@ + element_type.display() + "!"@)), true))
                        } else {
                            v_list(st1, res1, s, i + 1, element_type)
                        },
                    }
                }
            },
        }
    }
}

/// The outcome of checking the arguments of a call against `arg_types`.
pub open spec fn v_call_args(
    st: ValidatorState,
    res: VRes,
    s: Seq<SpecNode>,
    i: int,
    arg_types: Seq<SpecType>,
    acc: Seq<SpecNode>,
) -> Option<(ValidatorState, VRes, Seq<SpecNode>, bool)>
    decreases s, s.len() - i,
{
    if i < 0 || i >= s.len() {
        Some((st, res, acc, false))
    } else {
        match spec_validate(st, s[i]) {
            None => None,
            Some((st1, child)) => {
                let (res1, t, n) = vres_register(res, child);
                if res1.error is Some {
                    Some((st1, res1, acc, true))
                } else {
                    match t {
                        None => None,
                        Some(t) => if i >= arg_types.len() {
                            None
                        } else if !t.type_eq(arg_types[i]) {
                            Some((st1, vres_failure(res1, sem_err(s[i].pos_start(), s[i].pos_end(), "Expected type '"@
                                + arg_types[i].display() + "' as argument at index "@ + crate::text::decimal(i as nat)
                                + ", got '"@ + t.display() + "'!"@)), acc, true))
                        } else {
                            match n {
                                Some(n) => v_call_args(st1, res1, s, i + 1, arg_types, acc.push(n)),
                                None => None,
                            }
                        },
                    }
                }
            },
        }
    }
}

/// The outcome of checking the cases of an `if`.
pub open spec fn v_cases(
    st: ValidatorState,
    res: VRes,
    s: Seq<(SpecNode, SpecNode)>,
    i: int,
    acc: Seq<(SpecNode, SpecNode)>,
    if_start: SpecPosition,
    if_end: SpecPosition,
) -> Option<(ValidatorState, VRes, Seq<(SpecNode, SpecNode)>, bool)>
    decreases s, s.len() - i,
{
    if i < 0 || i >= s.len() {
        Some((st, res, acc, false))
    } else {
        match spec_validate(st, s[i].0) {
            None => None,
            Some((st1, child)) => {
                let (res1, ct, cn) = vres_register(res, child);
                if res1.error is Some {
                    Some((st1, res1, acc, true))
                } else {
                    match ct {
                        None => None,
                        Some(ct) => if ct.kind() != ValueTypes::Bool {
                            Some((st1, vres_failure(res1, sem_err(if_start, if_end, "Condition must be of type bool!"@)), acc, true))
                        } else {
                            match spec_validate(st1.push_child_scope(ScopeType::Block), s[i].1) {
                                None => None,
                                Some((st2, child2)) => {
                                    let (res2, _t, sn) = vres_register(res1, child2);
                                    if !st2.can_pop() {
                                        None
                                    } else if res2.error is Some {
                                        Some((st2.pop_child_scope(), res2, acc, true))
                                    } else {
                                        match (cn, sn) {
                                            (Some(cn), Some(sn)) => v_cases(
                                                st2.pop_child_scope(),
                                                res2,
                                                s,
                                                i + 1,
                                                acc.push((cn, sn)),
                                                if_start,
                                                if_end,
                                            ),
                                            _ => None,
                                        }
                                    }
                                },
                            }
                        },
                    }
                }
            },
        }
    }
}

/// What a field access gives once the accessed value is known to be of type
/// `t`: a pointer to the field, reached by adding the field's offset to the
/// pointer, or a failure where `t` is no pointer to a known structure that
/// has the field.
pub open spec fn v_accessor(
    st: ValidatorState,
    res: VRes,
    t: SpecType,
    n: Option<SpecNode>,
    accessor: Seq<char>,
    pos_start: SpecPosition,
    pos_end: SpecPosition,
) -> Option<VRes> {
    match t {
        SpecType::Pointer { pointee, is_mutable } => match *pointee {
            SpecType::Struct { name } => match st.struct_fields(name) {
                None => Some(vres_failure(res, sem_err(pos_start, pos_end, "Structure with the name '"@ + name
                    + "' was not defined!"@))),
                Some(fields) => match field_offset(fields, accessor, 0, 0) {
                    None => None,
                    Some(None) => Some(vres_failure(res, sem_err(pos_start, pos_end, "Field '"@ + accessor
                        + "' was not found in structure '"@ + name + "'!"@))),
                    Some(Some((offset, field_type))) => match n {
                        Some(n) => Some(vres_success(
                            res,
                            SpecType::Pointer { pointee: Box::new(field_type), is_mutable },
                            SpecNode::BinOp {
                                left: Box::new(n),
                                op: SpecToken {
                                    tok_type: TokenType::Plus,
                                    tok_value: None,
                                    pos_start: empty_pos(),
                                    pos_end: empty_pos(),
                                    flags: 0,
                                },
                                right: Box::new(SpecNode::Number {
                                    token: number_token(crate::text::decimal(offset), empty_pos(), empty_pos()),
                                    value_type: SpecType::U64,
                                }),
                            },
                        )),
                        None => None,
                    },
                },
            },
            _ => Some(vres_failure(res, not_struct_pointer_error(pos_start, pos_end))),
        },
        _ => Some(vres_failure(res, not_struct_pointer_error(pos_start, pos_end))),
    }
}

/// The error for a field access on a value that is no pointer to a
/// structure.
pub open spec fn not_struct_pointer_error(pos_start: SpecPosition, pos_end: SpecPosition) -> SpecError {
    sem_err(pos_start, pos_end, "Can't access fields of non-pointer-to-struct type!"@)
}

/// The message for a value of type `a` where one of type `b` is wanted.
pub open spec fn assign_type_message(a: SpecType, b: SpecType) -> Seq<char> {
    "Type '"@ + a.display() + "' can't be assigned to type '"@ + b.display() + "'!"@
}

/// The message for a name declared twice.
pub open spec fn redeclared_message(name: Seq<char>) -> Seq<char> {
    "Function or variable with name '"@ + name + "' was already declared in this scope!"@
}

/// Checks `node`: the state after it and the result, or `None` where the
/// check stops the program.
pub open spec fn spec_validate(st: ValidatorState, node: SpecNode) -> Option<(ValidatorState, VRes)>
    decreases node, 1int,
{
    match node {
        SpecNode::Statements { .. } => check_statements(st, node),
        SpecNode::Number { .. } => Some((st, vres_success(vres_new(), SpecType::U64, node))),
        SpecNode::String { .. } => Some((st, vres_success(vres_new(), SpecType::String, node))),
        SpecNode::Char { .. } => Some((st, vres_success(vres_new(), SpecType::Char, node))),
        SpecNode::List { .. } => check_list(st, node),
        SpecNode::BinOp { .. } => check_bin_op(st, node),
        SpecNode::UnaryOp { .. } => check_unary_op(st, node),
        SpecNode::VarDeclaration { .. } => check_var_declaration(st, node),
        SpecNode::VarAssign { .. } => check_var_assign(st, node),
        SpecNode::VarAccess { .. } => check_var_access(st, node),
        SpecNode::FunctionDef { .. } => check_function_def(st, node),
        SpecNode::FunctionDecl { .. } => check_function_decl(st, node),
        SpecNode::Call { .. } => check_call(st, node),
        SpecNode::Return { .. } => check_return(st, node),
        SpecNode::Break { .. } => check_break(st, node),
        SpecNode::Continue { .. } => check_continue(st, node),
        SpecNode::Syscall { .. } => check_syscall(st, node),
        SpecNode::While { .. } => check_while(st, node),
        SpecNode::For { .. } => check_for(st, node),
        SpecNode::If { .. } => check_if(st, node),
        SpecNode::Cast { .. } => check_cast(st, node),
        SpecNode::ConstDef { .. } => check_const_def(st, node),
        SpecNode::SizeOf { .. } => check_sizeof(st, node),
        SpecNode::StaticDef { .. } => check_static_def(st, node),
        SpecNode::StructDef { .. } => check_struct_def(st, node),
        SpecNode::ReadBytes { .. } => check_read_bytes(st, node),
        SpecNode::Dereference { .. } => check_dereference(st, node),
        SpecNode::Import { .. } => check_import(st, node),
        SpecNode::MacroDef { .. } => Some((st, vres_success(vres_new(), SpecType::Ignored, node))),
        SpecNode::Ignored { .. } => Some((st, vres_success(vres_new(), SpecType::Ignored, node))),
        SpecNode::Accessor { .. } => check_accessor(st, node),
        _ => None,
    }
}

/// Checks a node of kind `Statements`.
pub open spec fn check_statements(st: ValidatorState, node: SpecNode) -> Option<(ValidatorState, VRes)>
    decreases node, 0int,
{
    let res = vres_new();
    match node {
        SpecNode::Statements { statements, pos_start, pos_end } => {
            match v_seq(st.push_child_scope(ScopeType::Block), res, statements, 0, Seq::empty()) {
                None => None,
                Some((st1, res1, acc, stopped)) => if stopped {
                    Some((st1, res1))
                } else if !st1.can_pop() {
                    None
                } else {
                    Some((
                        st1.pop_child_scope(),
                        vres_success(res1, SpecType::Ignored, SpecNode::Statements { statements: acc, pos_start, pos_end }),
                    ))
                },
            }
        },
        _ => None,
    }
}

/// Checks a node of kind `List`.
pub open spec fn check_list(st: ValidatorState, node: SpecNode) -> Option<(ValidatorState, VRes)>
    decreases node, 0int,
{
    let res = vres_new();
    match node {
        SpecNode::List { elements, element_type, .. } => {
            match v_list(st, res, elements, 0, element_type) {
                None => None,
                Some((st1, res1, stopped)) => if stopped {
                    Some((st1, res1))
                } else {
                    Some((st1, vres_success(res1, SpecType::Pointer { pointee: Box::new(element_type), is_mutable: true }, node)))
                },
            }
        },
        _ => None,
    }
}

/// Checks a node of kind `BinOp`.
pub open spec fn check_bin_op(st: ValidatorState, node: SpecNode) -> Option<(ValidatorState, VRes)>
    decreases node, 0int,
{
    let res = vres_new();
    match node {
        SpecNode::BinOp { left, op, right } => {
            match spec_validate(st, *left) {
                None => None,
                Some((st1, c1)) => {
                    let (res1, lt, ln) = vres_register(res, c1);
                    if res1.error is Some {
                        Some((st1, res1))
                    } else {
                        match spec_validate(st1, *right) {
                            None => None,
                            Some((st2, c2)) => {
                                let (res2, rt, rn) = vres_register(res1, c2);
                                if res2.error is Some {
                                    Some((st2, res2))
                                } else {
                                    match (lt, rt) {
                                        (Some(lt), Some(rt)) => match lt.bin_op(op.tok_type, rt) {
                                            None => Some((st2, vres_failure(res2, sem_err(node.pos_start(), node.pos_end(),
                                                "Binary operation '"@ + op.display() + "' not allowed between value_type "@
                                                + lt.display() + " and "@ + rt.display() + "!"@)))),
                                            Some(t) => match (ln, rn) {
                                                (Some(ln), Some(rn)) => if op.tok_type == TokenType::PointerAssign {
                                                match lt {
                                                    SpecType::Pointer { pointee, .. } => Some((st2, vres_success(
                                                        res2,
                                                        t,
                                                        SpecNode::PointerAssign { ptr: Box::new(ln), pointee_type: *pointee, value: Box::new(rn) },
                                                    ))),
                                                    _ => None,
                                                }
                                            } else if op.tok_type == TokenType::Offset {
                                                match lt {
                                                    SpecType::Pointer { pointee, .. } => Some((st2, vres_success(
                                                        res2,
                                                        t,
                                                        SpecNode::Offset { left: Box::new(ln), right: Box::new(rn), pointee_type: *pointee },
                                                    ))),
                                                    _ => None,
                                                }
                                            } else {
                                                Some((st2, vres_success(
                                                    res2,
                                                    t,
                                                    SpecNode::BinOp { left: Box::new(ln), op, right: Box::new(rn) },
                                                )))
                                            },
                                                _ => None,
                                            },
                                        },
                                        _ => None,
                                    }
                                }
                            },
                        }
                    }
                },
            }
        },
        _ => None,
    }
}

/// Checks a node of kind `UnaryOp`.
pub open spec fn check_unary_op(st: ValidatorState, node: SpecNode) -> Option<(ValidatorState, VRes)>
    decreases node, 0int,
{
    let res = vres_new();
    match node {
        SpecNode::UnaryOp { op, node: inner } => {
            match spec_validate(st, *inner) {
                None => None,
                Some((st1, c)) => {
                    let (res1, t, n) = vres_register(res, c);
                    if res1.error is Some {
                        Some((st1, res1))
                    } else {
                        match t {
                            Some(t) => match t.unary_op(op.tok_type) {
                                None => Some((st1, vres_failure(res1, sem_err(node.pos_start(), node.pos_end(),
                                    "Unary operation '"@ + op.display() + "' not allowed on type "@ + t.display() + "!"@)))),
                                Some(rt) => match n {
                                    Some(n) => Some((st1, vres_success(res1, rt, SpecNode::UnaryOp { op, node: Box::new(n) }))),
                                    None => None,
                                },
                            },
                            None => None,
                        }
                    }
                },
            }
        },
        _ => None,
    }
}

/// Checks a node of kind `VarDeclaration`.
pub open spec fn check_var_declaration(st: ValidatorState, node: SpecNode) -> Option<(ValidatorState, VRes)>
    decreases node, 0int,
{
    let res = vres_new();
    match node {
        SpecNode::VarDeclaration { name, var_type, value, is_mutable, pos_start } => {
            if st.has_symbol(name) {
                let decl_pos = st.get_symbol(name)->0.pos;
                Some((st, vres_failure(res, sem_err_with_parent(
                    pos_start,
                    node.pos_end(),
                    "Variable '"@ + name + "' was already declared in this scope!"@,
                    sem_err(decl_pos, decl_pos, "Previous declaration of '"@ + name + "'"@),
                ))))
            } else {
                match spec_validate(st, *value) {
                    None => None,
                    Some((st1, c)) => {
                        let (res1, t, n) = vres_register(res, c);
                        if res1.error is Some {
                            Some((st1, res1))
                        } else {
                            match (t, n) {
                                (Some(t), Some(n)) => if !t.type_eq(var_type) {
                                    Some((st1, vres_failure(res1, sem_err(pos_start, node.pos_end(), assign_type_message(t, var_type)))))
                                } else {
                                    Some((
                                        st1.declare_symbol(name, t, is_mutable, pos_start),
                                        vres_success(
                                            res1,
                                            t,
                                            SpecNode::VarDeclaration { name, var_type, value: Box::new(n), is_mutable, pos_start },
                                        ),
                                    ))
                                },
                                (None, _) => None,
                                _ => if !t->0.type_eq(var_type) {
                                    Some((st1, vres_failure(res1, sem_err(pos_start, node.pos_end(), assign_type_message(t->0, var_type)))))
                                } else {
                                    None
                                },
                            }
                        }
                    },
                }
            }
        },
        _ => None,
    }
}

/// Checks a node of kind `VarAssign`.
pub open spec fn check_var_assign(st: ValidatorState, node: SpecNode) -> Option<(ValidatorState, VRes)>
    decreases node, 0int,
{
    let res = vres_new();
    match node {
        SpecNode::VarAssign { name, value, pos_start } => {
            if !st.has_symbol(name) {
                Some((st, vres_failure(res, sem_err(pos_start, node.pos_end(), "Variable '"@ + name
                    + "' was not declared in this scope!"@))))
            } else {
                match spec_validate(st, *value) {
                    None => None,
                    Some((st1, c)) => {
                        let (res1, t, n) = vres_register(res, c);
                        if res1.error is Some {
                            Some((st1, res1))
                        } else {
                            match (st1.get_symbol(name), t) {
                                (Some(sym), Some(t)) => if !sym.value_type.type_eq(t) {
                                    Some((st1, vres_failure(res1, sem_err(pos_start, node.pos_end(), "Variable type "@
                                        + sym.value_type.display() + " does not match assign type "@ + t.display() + "!"@))))
                                } else if !st1.is_symbol_mut(name) {
                                    Some((st1, vres_failure(res1, sem_err(pos_start, node.pos_end(), "Variable '"@ + name
                                        + "' is not mutable!"@))))
                                } else {
                                    match n {
                                        Some(n) => Some((st1, vres_success(
                                            res1,
                                            t,
                                            SpecNode::VarTypedAssign { name, value: Box::new(n), value_type: t, pos_start },
                                        ))),
                                        None => None,
                                    }
                                },
                                _ => None,
                            }
                        }
                    },
                }
            }
        },
        _ => None,
    }
}

/// Checks a node of kind `VarAccess`.
pub open spec fn check_var_access(st: ValidatorState, node: SpecNode) -> Option<(ValidatorState, VRes)>
{
    let res = vres_new();
    match node {
        SpecNode::VarAccess { name, pos_start, pos_end } => {
            match st.get_symbol(name) {
                None => Some((st, vres_failure(res, sem_err(pos_start, pos_end, "Variable '"@ + name
                    + "' wasn't declared in this scope!"@)))),
                Some(sym) => Some((st, vres_success(
                    res,
                    sym.value_type,
                    SpecNode::VarTypedAccess { name, value_type: sym.value_type, pos_start, pos_end },
                ))),
            }
        },
        _ => None,
    }
}

/// Checks a node of kind `FunctionDef`.
pub open spec fn check_function_def(st: ValidatorState, node: SpecNode) -> Option<(ValidatorState, VRes)>
    decreases node, 0int,
{
    let res = vres_new();
    match node {
        SpecNode::FunctionDef { name, args, return_type, body, pos_start } => {
            if st.has_symbol(name) {
                Some((st, vres_failure(res, sem_err(pos_start, node.pos_end(), redeclared_message(name)))))
            } else if name == "main"@ && return_type.kind() != ValueTypes::U64 {
                Some((st, vres_failure(res, sem_err(pos_start, node.pos_end(), "Main function must return type 'number'!"@))))
            } else if name == "main"@ && args.len() != 2 {
                Some((st, vres_failure(res, sem_err(pos_start, node.pos_end(), "Main function must have two parameters!"@))))
            } else if name == "main"@ && args[0].1.kind() != ValueTypes::U64 {
                Some((st, vres_failure(res, sem_err(pos_start, node.pos_end(),
                    "First parameter of main function must be of type 'number'!"@))))
            } else if name == "main"@ && !(args[1].1 matches SpecType::Pointer { pointee, .. } && pointee.kind()
                == ValueTypes::Char) {
                Some((st, vres_failure(res, sem_err(pos_start, node.pos_end(),
                    "Second parameter of main function must be a pointer to a character!"@))))
            } else {
                let fn_type = SpecType::Function { args: Seq::new(args.len(), |i: int| args[i].1), ret: Box::new(return_type) };
                let st1 = st.declare_symbol(name, fn_type, false, pos_start);
                let st2 = ValidatorState { fn_return: Some(return_type), ..st1.push_child_scope(ScopeType::Function) };
                let st3 = declare_args(st2, args, pos_start);
                match spec_validate(st3, *body) {
                    None => None,
                    Some((st4, c)) => {
                        let (res1, _t, bn) = vres_register(res, c);
                        if !st4.can_pop() {
                            None
                        } else {
                            let st5 = ValidatorState { fn_return: st.fn_return, ..st4.pop_child_scope() };
                            if res1.error is Some {
                                Some((st5, vres_failure(res1, sem_err_with_parent(pos_start, node.pos_end(),
                                    "Function definition failed!"@, res1.error->0))))
                            } else {
                                match res1.return_type {
                                    None => Some((st5, vres_failure(res1, sem_err(node.pos_end(), node.pos_end(),
                                        "No return statement given!"@)))),
                                    Some(rt) => if !rt.type_eq(return_type) {
                                        Some((st5, vres_failure(res1, sem_err(node.pos_end(), node.pos_end(),
                                            "Function return type is '"@ + return_type.display() + "', returned was '"@
                                            + rt.display() + "'!"@))))
                                    } else {
                                        match bn {
                                            Some(bn) => Some((st5, vres_success(
                                                res1,
                                                SpecType::Ignored,
                                                SpecNode::FunctionDef { name, args, return_type, body: Box::new(bn), pos_start },
                                            ))),
                                            None => None,
                                        }
                                    },
                                }
                            }
                        }
                    },
                }
            }
        },
        _ => None,
    }
}

/// Checks a node of kind `FunctionDecl`.
pub open spec fn check_function_decl(st: ValidatorState, node: SpecNode) -> Option<(ValidatorState, VRes)>
{
    let res = vres_new();
    match node {
        SpecNode::FunctionDecl { name, args, return_type, pos_start, pos_end } => {
            if st.has_symbol(name) {
                Some((st, vres_failure(res, sem_err(pos_start, pos_end, redeclared_message(name)))))
            } else {
                let fn_type = SpecType::Function { args: Seq::new(args.len(), |i: int| args[i].1), ret: Box::new(return_type) };
                Some((st.declare_symbol(name, fn_type, false, pos_start), vres_success(res, SpecType::Ignored, node)))
            }
        },
        _ => None,
    }
}

/// Checks a node of kind `Call`.
pub open spec fn check_call(st: ValidatorState, node: SpecNode) -> Option<(ValidatorState, VRes)>
    decreases node, 0int,
{
    let res = vres_new();
    match node {
        SpecNode::Call { name, args, pos_start } => {
            match st.get_symbol(name) {
                None => Some((st, vres_failure(res, sem_err(pos_start, pos_start, "'"@ + name
                    + "' was not declared in this scope!"@)))),
                Some(sym) => match sym.value_type {
                    SpecType::Function { args: arg_types, ret } => if arg_types.len() != args.len() {
                        Some((st, vres_failure(res, sem_err(pos_start, pos_start, "Function expected "@
                            + crate::text::decimal(arg_types.len()) + " arguments. "@ + crate::text::decimal(args.len())
                            + " were passed!"@))))
                    } else {
                        match v_call_args(st, res, args, 0, arg_types, Seq::empty()) {
                            None => None,
                            Some((st1, res1, acc, stopped)) => if stopped {
                                Some((st1, res1))
                            } else {
                                Some((st1, vres_success(res1, *ret, SpecNode::Call { name, args: acc, pos_start })))
                            },
                        }
                    },
                    SpecType::Extern => Some((st, vres_success(res, SpecType::U64, node))),
                    _ => Some((st, vres_failure(res, sem_err(pos_start, pos_start, "'"@ + name + "' is not a function!"@)))),
                },
            }
        },
        _ => None,
    }
}

/// Checks a node of kind `Return`.
pub open spec fn check_return(st: ValidatorState, node: SpecNode) -> Option<(ValidatorState, VRes)>
    decreases node, 0int,
{
    let res = vres_new();
    match node {
        SpecNode::Return { value, pos_start, pos_end } => {
            match st.find_first_function() {
                None => Some((st, vres_failure(res, sem_err(pos_start, pos_end, "Return statement outside of function!"@)))),
                Some(fr) => match value {
                    None => if fr.kind() != ValueTypes::Void {
                        Some((st, vres_failure(res, sem_err(pos_start, pos_end, "Function return type is not void!"@))))
                    } else {
                        Some((st, vres_success(
                            vres_success_return(res, SpecType::Void),
                            SpecType::Ignored,
                            SpecNode::Return { value: None, pos_start, pos_end },
                        )))
                    },
                    Some(v) => match spec_validate(st, *v) {
                        None => None,
                        Some((st1, c)) => {
                            let (res1, t, n) = vres_register(res, c);
                            if res1.error is Some {
                                Some((st1, res1))
                            } else {
                                match t {
                                    Some(t) => if !t.type_eq(fr) {
                                        Some((st1, vres_failure(res1, sem_err(pos_start, pos_end, "Expected return type '"@
                                            + fr.display() + "', got '"@ + t.display() + "'!"@))))
                                    } else {
                                        match n {
                                            Some(n) => Some((st1, vres_success(
                                                vres_success_return(res1, t),
                                                SpecType::Ignored,
                                                SpecNode::Return { value: Some(Box::new(n)), pos_start, pos_end },
                                            ))),
                                            None => None,
                                        }
                                    },
                                    None => None,
                                }
                            }
                        },
                    },
                },
            }
        },
        _ => None,
    }
}

/// Checks a node of kind `Break`.
pub open spec fn check_break(st: ValidatorState, node: SpecNode) -> Option<(ValidatorState, VRes)>
{
    let res = vres_new();
    match node {
        SpecNode::Break { pos_start, pos_end } => if !st.is_in_scope_stack(ScopeType::Loop) {
            Some((st, vres_failure(res, sem_err(pos_start, pos_end, "Break statement outside of loop!"@))))
        } else {
            Some((st, vres_success(res, SpecType::Ignored, node)))
        },
        _ => None,
    }
}

/// Checks a node of kind `Continue`.
pub open spec fn check_continue(st: ValidatorState, node: SpecNode) -> Option<(ValidatorState, VRes)>
{
    let res = vres_new();
    match node {
        SpecNode::Continue { pos_start, pos_end } => if !st.is_in_scope_stack(ScopeType::Loop) {
            Some((st, vres_failure(res, sem_err(pos_start, pos_end, "Continue statement outside of loop!"@))))
        } else {
            Some((st, vres_success(res, SpecType::Ignored, node)))
        },
        _ => None,
    }
}

/// Checks a node of kind `Syscall`.
pub open spec fn check_syscall(st: ValidatorState, node: SpecNode) -> Option<(ValidatorState, VRes)>
    decreases node, 0int,
{
    let res = vres_new();
    match node {
        SpecNode::Syscall { args, pos_start, pos_end } => {
            match v_seq(st, res, args, 0, Seq::empty()) {
                None => None,
                Some((st1, res1, acc, stopped)) => if stopped {
                    Some((st1, res1))
                } else {
                    Some((st1, vres_success(res1, SpecType::U64, SpecNode::Syscall { args: acc, pos_start, pos_end })))
                },
            }
        },
        _ => None,
    }
}

/// Checks a node of kind `While`.
pub open spec fn check_while(st: ValidatorState, node: SpecNode) -> Option<(ValidatorState, VRes)>
    decreases node, 0int,
{
    let res = vres_new();
    match node {
        SpecNode::While { condition, body } => {
            match spec_validate(st, *condition) {
                None => None,
                Some((st1, c)) => {
                    let (res1, ct, cn) = vres_register(res, c);
                    if res1.error is Some {
                        Some((st1, res1))
                    } else {
                        match ct {
                            None => None,
                            Some(ct) => if ct.kind() != ValueTypes::Bool {
                                Some((st1, vres_failure(res1, sem_err(node.pos_start(), node.pos_end(),
                                    "Condition must be of type bool!"@))))
                            } else {
                                match spec_validate(st1.push_child_scope(ScopeType::Loop), *body) {
                                    None => None,
                                    Some((st2, c2)) => {
                                        let (res2, _t, bn) = vres_register(res1, c2);
                                        if !st2.can_pop() {
                                            None
                                        } else if res2.error is Some {
                                            Some((st2.pop_child_scope(), res2))
                                        } else {
                                            match (cn, bn) {
                                                (Some(cn), Some(bn)) => Some((st2.pop_child_scope(), vres_success(
                                                    res2,
                                                    SpecType::Ignored,
                                                    SpecNode::While { condition: Box::new(cn), body: Box::new(bn) },
                                                ))),
                                                _ => None,
                                            }
                                        }
                                    },
                                }
                            },
                        }
                    }
                },
            }
        },
        _ => None,
    }
}

/// Checks a node of kind `For`.
pub open spec fn check_for(st: ValidatorState, node: SpecNode) -> Option<(ValidatorState, VRes)>
    decreases node, 0int,
{
    let res = vres_new();
    match node {
        SpecNode::For { init, condition, next, body } => {
            let st0 = st.push_child_scope(ScopeType::Block);
            match spec_validate(st0, *init) {
                None => None,
                Some((st1, c1)) => {
                    let (res1, _t1, initn) = vres_register(res, c1);
                    if res1.error is Some {
                        if !st1.can_pop() { None } else { Some((st1.pop_child_scope(), res1)) }
                    } else {
                        match spec_validate(st1, *condition) {
                            None => None,
                            Some((st2, c2)) => {
                                let (res2, ct, cn) = vres_register(res1, c2);
                                if res2.error is Some {
                                    if !st2.can_pop() { None } else { Some((st2.pop_child_scope(), res2)) }
                                } else {
                                    match ct {
                                        None => None,
                                        Some(ct) => if ct.kind() != ValueTypes::Bool {
                                            if !st2.can_pop() {
                                                None
                                            } else {
                                                Some((st2.pop_child_scope(), vres_failure(res2, sem_err(node.pos_start(),
                                                    node.pos_end(), "Condition must be of type bool!"@))))
                                            }
                                        } else {
                                            match spec_validate(st2, *next) {
                                                None => None,
                                                Some((st3, c3)) => {
                                                    let (res3, _t3, nn) = vres_register(res2, c3);
                                                    if res3.error is Some {
                                                        if !st3.can_pop() { None } else { Some((st3.pop_child_scope(), res3)) }
                                                    } else {
                                                        match spec_validate(st3.push_child_scope(ScopeType::Loop), *body) {
                                                            None => None,
                                                            Some((st4, c4)) => {
                                                                let (res4, _t4, bn) = vres_register(res3, c4);
                                                                if !st4.can_pop() || !st4.pop_child_scope().can_pop() {
                                                                    None
                                                                } else {
                                                                    let st5 = st4.pop_child_scope().pop_child_scope();
                                                                    if res4.error is Some {
                                                                        Some((st5, res4))
                                                                    } else {
                                                                        match (initn, cn, nn, bn) {
                                                                            (Some(i), Some(c), Some(n), Some(b)) => Some((st5, vres_success(
                                                                                res4,
                                                                                SpecType::Ignored,
                                                                                SpecNode::For {
                                                                                    init: Box::new(i),
                                                                                    condition: Box::new(c),
                                                                                    next: Box::new(n),
                                                                                    body: Box::new(b),
                                                                                },
                                                                            ))),
                                                                            _ => None,
                                                                        }
                                                                    }
                                                                }
                                                            },
                                                        }
                                                    }
                                                },
                                            }
                                        },
                                    }
                                }
                            },
                        }
                    }
                },
            }
        },
        _ => None,
    }
}

/// Checks a node of kind `If`.
pub open spec fn check_if(st: ValidatorState, node: SpecNode) -> Option<(ValidatorState, VRes)>
    decreases node, 0int,
{
    let res = vres_new();
    match node {
        SpecNode::If { cases, else_case } => {
            match v_cases(st, res, cases, 0, Seq::empty(), node.pos_start(), node.pos_end()) {
                None => None,
                Some((st1, res1, acc, stopped)) => if stopped {
                    Some((st1, res1))
                } else {
                    match else_case {
                        None => Some((st1, vres_success(res1, SpecType::Ignored, SpecNode::If { cases: acc, else_case: None }))),
                        Some(e) => match spec_validate(st1.push_child_scope(ScopeType::Block), *e) {
                            None => None,
                            Some((st2, c)) => {
                                let (res2, _t, en) = vres_register(res1, c);
                                if !st2.can_pop() {
                                    None
                                } else if res2.error is Some {
                                    Some((st2.pop_child_scope(), res2))
                                } else {
                                    match en {
                                        Some(en) => Some((st2.pop_child_scope(), vres_success(
                                            res2,
                                            SpecType::Ignored,
                                            SpecNode::If { cases: acc, else_case: Some(Box::new(en)) },
                                        ))),
                                        None => None,
                                    }
                                }
                            },
                        },
                    }
                },
            }
        },
        _ => None,
    }
}

/// Checks a node of kind `Cast`.
pub open spec fn check_cast(st: ValidatorState, node: SpecNode) -> Option<(ValidatorState, VRes)>
    decreases node, 0int,
{
    let res = vres_new();
    match node {
        SpecNode::Cast { node: inner, cast_type, pos_end } => {
            match spec_validate(st, *inner) {
                None => None,
                Some((st1, c)) => {
                    let (res1, t, n) = vres_register(res, c);
                    if res1.error is Some {
                        Some((st1, res1))
                    } else {
                        match t {
                            Some(t) => if !t.valid_cast(cast_type) {
                                Some((st1, vres_failure(res1, sem_err(node.pos_start(), pos_end,
                                    "Invalid cast! Cannot cast from type '"@ + t.display() + "' to type '"@
                                    + cast_type.display() + "'!"@))))
                            } else {
                                match n {
                                    Some(n) => Some((st1, vres_success(res1, cast_type, SpecNode::Cast { node: Box::new(n), cast_type, pos_end }))),
                                    None => None,
                                }
                            },
                            None => None,
                        }
                    }
                },
            }
        },
        _ => None,
    }
}

/// Checks a node of kind `ConstDef`.
pub open spec fn check_const_def(st: ValidatorState, node: SpecNode) -> Option<(ValidatorState, VRes)>
    decreases node, 0int,
{
    let res = vres_new();
    match node {
        SpecNode::ConstDef { name, value, value_type, pos_start } => {
            match spec_validate(st, *value) {
                None => None,
                Some((st1, c)) => {
                    let (res1, t, n) = vres_register(res, c);
                    if res1.error is Some {
                        Some((st1, res1))
                    } else {
                        match t {
                            Some(t) => if !t.type_eq(value_type) {
                                Some((st1, vres_failure(res1, sem_err(pos_start, node.pos_end(), assign_type_message(t, value_type)))))
                            } else {
                                match n {
                                    Some(n) => Some((
                                        st1.declare_symbol(name, t, false, pos_start),
                                        vres_success(res1, SpecType::Ignored, SpecNode::ConstDef { name, value: Box::new(n), value_type, pos_start }),
                                    )),
                                    None => None,
                                }
                            },
                            None => None,
                        }
                    }
                },
            }
        },
        _ => None,
    }
}

/// Checks a node of kind `SizeOf`.
pub open spec fn check_sizeof(st: ValidatorState, node: SpecNode) -> Option<(ValidatorState, VRes)>
{
    let res = vres_new();
    match node {
        SpecNode::SizeOf { value_type, pos_start, pos_end } => {
            match value_type.size() {
                None => None,
                Some(z) => {
                    let size: Option<nat> = match value_type {
                        SpecType::Struct { name } => match st.struct_fields(name) {
                            None => None,
                            Some(fields) => fields_size(fields),
                        },
                        _ => Some(z.spec_size_in_bytes() as nat),
                    };
                    match value_type {
                        SpecType::Struct { name } if st.struct_fields(name) is None => Some((st, vres_failure(res,
                            sem_err(pos_start, pos_end, "Struct '"@ + name + "' is not defined!"@)))),
                        _ => match size {
                            Some(n) => if n > 255 {
                                None
                            } else {
                                Some((st, vres_success(
                                    res,
                                    SpecType::U64,
                                    SpecNode::Number {
                                        token: number_token(crate::text::decimal(n), pos_start, pos_end),
                                        value_type: SpecType::U64,
                                    },
                                )))
                            },
                            None => None,
                        },
                    }
                },
            }
        },
        _ => None,
    }
}

/// Checks a node of kind `StaticDef`.
pub open spec fn check_static_def(st: ValidatorState, node: SpecNode) -> Option<(ValidatorState, VRes)>
    decreases node, 0int,
{
    let res = vres_new();
    match node {
        SpecNode::StaticDef { name, value_type, value, is_mutable, pos_start } => {
            match spec_validate(st, *value) {
                None => None,
                Some((st1, c)) => {
                    let (res1, t, n) = vres_register(res, c);
                    if res1.error is Some {
                        Some((st1, res1))
                    } else {
                        match t {
                            Some(t) => if !t.type_eq(value_type) {
                                Some((st1, vres_failure(res1, sem_err(pos_start, node.pos_end(), assign_type_message(t, value_type)))))
                            } else {
                                match n {
                                    Some(n) => Some((
                                        st1.declare_symbol(name, t, is_mutable, pos_start),
                                        vres_success(res1, t, SpecNode::StaticDef { name, value_type, value: Box::new(n), is_mutable, pos_start }),
                                    )),
                                    None => None,
                                }
                            },
                            None => None,
                        }
                    }
                },
            }
        },
        _ => None,
    }
}

/// Checks a node of kind `StructDef`.
pub open spec fn check_struct_def(st: ValidatorState, node: SpecNode) -> Option<(ValidatorState, VRes)>
{
    let res = vres_new();
    match node {
        SpecNode::StructDef { name, fields, pos_start, pos_end } => {
            if st.struct_fields(name) is Some {
                Some((st, vres_failure(res, sem_err(pos_start, pos_end, "Structure with the name '"@ + name
                    + "' was already defined!"@))))
            } else {
                Some((ValidatorState { structs: st.structs.push((name, fields)), ..st }, vres_success(res, SpecType::Ignored, node)))
            }
        },
        _ => None,
    }
}

/// Checks a node of kind `ReadBytes`.
pub open spec fn check_read_bytes(st: ValidatorState, node: SpecNode) -> Option<(ValidatorState, VRes)>
    decreases node, 0int,
{
    let res = vres_new();
    match node {
        SpecNode::ReadBytes { node: inner, bytes, pos_end } => {
            match spec_validate(st, *inner) {
                None => None,
                Some((st1, c)) => {
                    let (res1, t, n) = vres_register(res, c);
                    if res1.error is Some {
                        Some((st1, res1))
                    } else {
                        match t {
                            Some(SpecType::Pointer { pointee, .. }) => match n {
                                Some(n) => Some((st1, vres_success(
                                    res1,
                                    *pointee,
                                    SpecNode::ReadBytes { node: Box::new(n), bytes, pos_end },
                                ))),
                                None => None,
                            },
                            Some(_) => Some((st1, vres_failure(res1, sem_err(node.pos_start(), pos_end,
                                "Can't read bytes from non-pointer type!"@)))),
                            None => None,
                        }
                    }
                },
            }
        },
        _ => None,
    }
}

/// Checks a node of kind `Dereference`.
pub open spec fn check_dereference(st: ValidatorState, node: SpecNode) -> Option<(ValidatorState, VRes)>
    decreases node, 0int,
{
    let res = vres_new();
    match node {
        SpecNode::Dereference { node: inner } => {
            match spec_validate(st, *inner) {
                None => None,
                Some((st1, c)) => {
                    let (res1, t, n) = vres_register(res, c);
                    if res1.error is Some {
                        Some((st1, res1))
                    } else {
                        match t {
                            Some(SpecType::Pointer { pointee, .. }) => match (pointee.size(), n) {
                                (Some(z), Some(n)) => Some((st1, vres_success(
                                    res1,
                                    *pointee,
                                    SpecNode::ReadBytes { node: Box::new(n), bytes: z, pos_end: inner.pos_end() },
                                ))),
                                _ => None,
                            },
                            Some(_) => Some((st1, vres_failure(res1, sem_err(node.pos_start(), node.pos_end(),
                                "Can't dereference non-pointer type!"@)))),
                            None => None,
                        }
                    }
                },
            }
        },
        _ => None,
    }
}

/// Checks a node of kind `Import`.
pub open spec fn check_import(st: ValidatorState, node: SpecNode) -> Option<(ValidatorState, VRes)>
    decreases node, 0int,
{
    let res = vres_new();
    match node {
        SpecNode::Import { node: inner } => {
            match *inner {
                SpecNode::Statements { statements, pos_start, pos_end } => match v_seq(st, res, statements, 0, Seq::empty()) {
                    None => None,
                    Some((st1, res1, acc, stopped)) => if stopped {
                        Some((st1, res1))
                    } else {
                        Some((st1, vres_success(
                            res1,
                            SpecType::Ignored,
                            SpecNode::Import { node: Box::new(SpecNode::Statements { statements: acc, pos_start, pos_end }) },
                        )))
                    },
                },
                _ => None,
            }
        },
        _ => None,
    }
}

/// Checks a node of kind `Accessor`.
pub open spec fn check_accessor(st: ValidatorState, node: SpecNode) -> Option<(ValidatorState, VRes)>
    decreases node, 0int,
{
    let res = vres_new();
    match node {
        SpecNode::Accessor { node: inner, accessor, pos_end } => {
            match spec_validate(st, *inner) {
                None => None,
                Some((st1, c)) => {
                    let (res1, t, n) = vres_register(res, c);
                    if res1.error is Some {
                        Some((st1, res1))
                    } else {
                        match t {
                            None => None,
                            Some(t) => match v_accessor(st1, res1, t, n, accessor, node.pos_start(), pos_end) {
                                None => None,
                                Some(r) => Some((st1, r)),
                            },
                        }
                    }
                },
            }
        },
        _ => None,
    }
}


/// A variable declared with a number as its value is accepted exactly when
/// its name is new and its declared type is `number`; once accepted, the
/// name is found again with type `number` and the declared mutability, and
/// once refused, nothing is declared.
pub proof fn law_number_declaration(
    st: ValidatorState,
    name: Seq<char>,
    var_type: SpecType,
    token: SpecToken,
    is_mutable: bool,
    pos_start: SpecPosition,
)
    requires
        st.wf(),
    ensures
        ({
            let value = SpecNode::Number { token, value_type: SpecType::U64 };
            let node = SpecNode::VarDeclaration { name, var_type, value: Box::new(value), is_mutable, pos_start };
            let out = spec_validate(st, node)->0;
            &&& spec_validate(st, node) is Some
            &&& (out.1.error is None <==> (!st.has_symbol(name) && SpecType::U64.type_eq(var_type)))
            &&& out.1.error is None ==> out.0.get_symbol(name) == Some(
                SpecSymbol { name, value_type: SpecType::U64, is_mutable, pos: pos_start },
            )
            &&& out.1.error is Some ==> out.0 == st
        }),
{
    let value = SpecNode::Number { token, value_type: SpecType::U64 };
    let node = SpecNode::VarDeclaration { name, var_type, value: Box::new(value), is_mutable, pos_start };
    assert(spec_validate(st, value) == Some((st, vres_success(vres_new(), SpecType::U64, value))));
    if !st.has_symbol(name) {
        law_declare_then_get(st, name, SpecType::U64, is_mutable, pos_start);
    }
    assert(spec_validate(st, node) is Some);
}

// ----- What a successful check keeps -----

/// `b` has the scopes of `a`: the same kinds and number of scopes, the same
/// return type to check against, and every scope but the innermost as it
/// was (the innermost may have gained names).
pub open spec fn keeps_scopes(a: ValidatorState, b: ValidatorState) -> bool {
    &&& b.scope_types == a.scope_types
    &&& b.scopes.len() == a.scopes.len()
    &&& b.scopes.drop_last() == a.scopes.drop_last()
    &&& b.fn_return == a.fn_return
}

/// A check from `st` that ends without an error gives a type that is no
/// structure, a node, and keeps the scopes of `st`.
pub open spec fn accepted_well(st: ValidatorState, out: Option<(ValidatorState, VRes)>) -> bool {
    match out {
        Some((st2, r)) => r.error is None ==> {
            &&& r.value_type is Some
            &&& r.value_type->0.kind() != ValueTypes::Struct
            &&& r.node is Some
            &&& keeps_scopes(st, st2)
        },
        None => true,
    }
}

/// What a loop over nodes keeps: where it stops, the result holds an error;
/// where it runs through, the result's error is the one it started with and
/// the scopes are kept.
pub open spec fn loop_well(st: ValidatorState, res: VRes, st2: ValidatorState, r: VRes, stopped: bool) -> bool {
    &&& stopped ==> r.error is Some
    &&& !stopped ==> keeps_scopes(st, st2) && r.error == res.error
}

proof fn lemma_keeps_declare(a: ValidatorState, name: Seq<char>, t: SpecType, m: bool, pos: SpecPosition)
    ensures
        keeps_scopes(a, a.declare_symbol(name, t, m, pos)),
{
    if !(a.scopes.len() == 0 || a.has_symbol(name)) {
        let b = a.declare_symbol(name, t, m, pos);
        assert(b.scopes.drop_last() =~= a.scopes.drop_last());
    }
}

proof fn lemma_keeps_declare_args(a: ValidatorState, args: Seq<(Seq<char>, SpecType)>, pos: SpecPosition)
    ensures
        keeps_scopes(a, declare_args(a, args, pos)),
    decreases args.len(),
{
    if args.len() > 0 {
        lemma_keeps_declare_args(a, args.drop_last(), pos);
        lemma_keeps_declare(declare_args(a, args.drop_last(), pos), args.last().0, args.last().1, true, pos);
    }
}

/// Leaving a scope that was entered from `a` and kept gives back the scopes
/// of `a`.
proof fn lemma_keeps_pop(a: ValidatorState, t: ScopeType, b: ValidatorState)
    requires
        keeps_scopes(a.push_child_scope(t), b),
    ensures
        b.pop_child_scope().scopes == a.scopes,
        b.pop_child_scope().scope_types == a.scope_types,
        keeps_scopes(a, b.pop_child_scope()),
{
    assert(a.push_child_scope(t).scopes.drop_last() =~= a.scopes);
    assert(a.push_child_scope(t).scope_types.drop_last() =~= a.scope_types);
}

proof fn lemma_v_seq(st: ValidatorState, res: VRes, s: Seq<SpecNode>, i: int, acc: Seq<SpecNode>)
    ensures
        match v_seq(st, res, s, i, acc) {
            Some((st2, r, _a, stopped)) => loop_well(st, res, st2, r, stopped),
            None => true,
        },
    decreases s, s.len() - i,
{
    if 0 <= i < s.len() {
        lemma_accepted_well(st, s[i]);
        match spec_validate(st, s[i]) {
            Some((st1, child)) => {
                let (res1, _t, n) = vres_register(res, child);
                if res1.error is None {
                    match n {
                        Some(n) => lemma_v_seq(st1, res1, s, i + 1, acc.push(n)),
                        None => {},
                    }
                }
            },
            None => {},
        }
    }
}

proof fn lemma_v_list(st: ValidatorState, res: VRes, s: Seq<SpecNode>, i: int, element_type: SpecType)
    ensures
        match v_list(st, res, s, i, element_type) {
            Some((st2, r, stopped)) => loop_well(st, res, st2, r, stopped),
            None => true,
        },
    decreases s, s.len() - i,
{
    if 0 <= i < s.len() {
        lemma_accepted_well(st, s[i]);
        match spec_validate(st, s[i]) {
            Some((st1, child)) => {
                let (res1, _t, _n) = vres_register(res, child);
                if res1.error is None {
                    lemma_v_list(st1, res1, s, i + 1, element_type);
                }
            },
            None => {},
        }
    }
}

proof fn lemma_v_call_args(
    st: ValidatorState,
    res: VRes,
    s: Seq<SpecNode>,
    i: int,
    arg_types: Seq<SpecType>,
    acc: Seq<SpecNode>,
)
    ensures
        match v_call_args(st, res, s, i, arg_types, acc) {
            Some((st2, r, _a, stopped)) => loop_well(st, res, st2, r, stopped),
            None => true,
        },
    decreases s, s.len() - i,
{
    if 0 <= i < s.len() {
        lemma_accepted_well(st, s[i]);
        match spec_validate(st, s[i]) {
            Some((st1, child)) => {
                let (res1, _t, n) = vres_register(res, child);
                if res1.error is None {
                    match n {
                        Some(n) => lemma_v_call_args(st1, res1, s, i + 1, arg_types, acc.push(n)),
                        None => {},
                    }
                }
            },
            None => {},
        }
    }
}

proof fn lemma_v_cases(
    st: ValidatorState,
    res: VRes,
    s: Seq<(SpecNode, SpecNode)>,
    i: int,
    acc: Seq<(SpecNode, SpecNode)>,
    if_start: SpecPosition,
    if_end: SpecPosition,
)
    ensures
        match v_cases(st, res, s, i, acc, if_start, if_end) {
            Some((st2, r, _a, stopped)) => loop_well(st, res, st2, r, stopped),
            None => true,
        },
    decreases s, s.len() - i,
{
    if 0 <= i < s.len() {
        lemma_accepted_well(st, s[i].0);
        match spec_validate(st, s[i].0) {
            Some((st1, child)) => {
                let (res1, _ct, cn) = vres_register(res, child);
                if res1.error is None {
                    lemma_accepted_well(st1.push_child_scope(ScopeType::Block), s[i].1);
                    match spec_validate(st1.push_child_scope(ScopeType::Block), s[i].1) {
                        Some((st2, child2)) => {
                            let (res2, _t, sn) = vres_register(res1, child2);
                            if res2.error is None {
                                lemma_keeps_pop(st1, ScopeType::Block, st2);
                                match (cn, sn) {
                                    (Some(cn), Some(sn)) => lemma_v_cases(
                                        st2.pop_child_scope(),
                                        res2,
                                        s,
                                        i + 1,
                                        acc.push((cn, sn)),
                                        if_start,
                                        if_end,
                                    ),
                                    _ => {},
                                }
                            }
                        },
                        None => {},
                    }
                }
            },
            None => {},
        }
    }
}

/// After a check of `inner` from `st`: the state and result, for the
/// lemmas below.
pub open spec fn after(st: ValidatorState, inner: SpecNode) -> (ValidatorState, VRes) {
    spec_validate(st, inner)->0
}

proof fn lemma_check_statements(st: ValidatorState, node: SpecNode)
    requires
        node is Statements,
    ensures
        accepted_well(st, check_statements(st, node)),
    decreases node, 0int,
{
    match node {
        SpecNode::Statements { statements, .. } => {
            lemma_v_seq(st.push_child_scope(ScopeType::Block), vres_new(), statements, 0, Seq::empty());
            match v_seq(st.push_child_scope(ScopeType::Block), vres_new(), statements, 0, Seq::empty()) {
                Some((st1, _r, _a, stopped)) => if !stopped {
                    lemma_keeps_pop(st, ScopeType::Block, st1);
                },
                None => {},
            }
        },
        _ => {},
    }
}

proof fn lemma_check_bin_op(st: ValidatorState, node: SpecNode)
    requires
        node is BinOp,
    ensures
        accepted_well(st, check_bin_op(st, node)),
    decreases node, 0int,
{
    match node {
        SpecNode::BinOp { left, right, .. } => {
            lemma_accepted_well(st, *left);
            lemma_accepted_well(after(st, *left).0, *right);
        },
        _ => {},
    }
}

proof fn lemma_check_var_declaration(st: ValidatorState, node: SpecNode)
    requires
        node is VarDeclaration,
    ensures
        accepted_well(st, check_var_declaration(st, node)),
    decreases node, 0int,
{
    match node {
        SpecNode::VarDeclaration { name, value, is_mutable, pos_start, .. } => {
            lemma_accepted_well(st, *value);
            let (st1, c) = after(st, *value);
            match c.value_type {
                Some(t) => lemma_keeps_declare(st1, name, t, is_mutable, pos_start),
                None => {},
            }
        },
        _ => {},
    }
}

proof fn lemma_check_function_def(st: ValidatorState, node: SpecNode)
    requires
        node is FunctionDef,
    ensures
        accepted_well(st, check_function_def(st, node)),
    decreases node, 0int,
{
    match node {
        SpecNode::FunctionDef { name, args, return_type, body, pos_start } => {
            let fn_type = SpecType::Function { args: Seq::new(args.len(), |i: int| args[i].1), ret: Box::new(return_type) };
            let st1 = st.declare_symbol(name, fn_type, false, pos_start);
            let st2 = ValidatorState { fn_return: Some(return_type), ..st1.push_child_scope(ScopeType::Function) };
            let st3 = declare_args(st2, args, pos_start);
            lemma_keeps_declare(st, name, fn_type, false, pos_start);
            lemma_keeps_declare_args(st2, args, pos_start);
            lemma_accepted_well(st3, *body);
            assert(st2.scopes.drop_last() =~= st1.scopes);
            assert(st2.scope_types.drop_last() =~= st1.scope_types);
        },
        _ => {},
    }
}

proof fn lemma_check_while(st: ValidatorState, node: SpecNode)
    requires
        node is While,
    ensures
        accepted_well(st, check_while(st, node)),
    decreases node, 0int,
{
    match node {
        SpecNode::While { condition, body } => {
            lemma_accepted_well(st, *condition);
            let st1 = after(st, *condition).0;
            lemma_accepted_well(st1.push_child_scope(ScopeType::Loop), *body);
            let st2 = after(st1.push_child_scope(ScopeType::Loop), *body).0;
            if keeps_scopes(st1.push_child_scope(ScopeType::Loop), st2) {
                lemma_keeps_pop(st1, ScopeType::Loop, st2);
            }
        },
        _ => {},
    }
}

proof fn lemma_check_for(st: ValidatorState, node: SpecNode)
    requires
        node is For,
    ensures
        accepted_well(st, check_for(st, node)),
    decreases node, 0int,
{
    match node {
        SpecNode::For { init, condition, next, body } => {
            let st0 = st.push_child_scope(ScopeType::Block);
            lemma_accepted_well(st0, *init);
            let st1 = after(st0, *init).0;
            lemma_accepted_well(st1, *condition);
            let st2 = after(st1, *condition).0;
            lemma_accepted_well(st2, *next);
            let st3 = after(st2, *next).0;
            lemma_accepted_well(st3.push_child_scope(ScopeType::Loop), *body);
            let st4 = after(st3.push_child_scope(ScopeType::Loop), *body).0;
            if keeps_scopes(st3.push_child_scope(ScopeType::Loop), st4) {
                lemma_keeps_pop(st3, ScopeType::Loop, st4);
                if keeps_scopes(st0, st3) {
                    lemma_keeps_pop(st, ScopeType::Block, st4.pop_child_scope());
                }
            }
        },
        _ => {},
    }
}

proof fn lemma_check_if(st: ValidatorState, node: SpecNode)
    requires
        node is If,
    ensures
        accepted_well(st, check_if(st, node)),
    decreases node, 0int,
{
    match node {
        SpecNode::If { cases, else_case } => {
            lemma_v_cases(st, vres_new(), cases, 0, Seq::empty(), node.pos_start(), node.pos_end());
            let st1 = (v_cases(st, vres_new(), cases, 0, Seq::empty(), node.pos_start(), node.pos_end())->0).0;
            match else_case {
                Some(e) => {
                    lemma_accepted_well(st1.push_child_scope(ScopeType::Block), *e);
                    let st2 = after(st1.push_child_scope(ScopeType::Block), *e).0;
                    if keeps_scopes(st1.push_child_scope(ScopeType::Block), st2) {
                        lemma_keeps_pop(st1, ScopeType::Block, st2);
                    }
                },
                None => {},
            }
        },
        _ => {},
    }
}

proof fn lemma_check_def(st: ValidatorState, node: SpecNode)
    requires
        node is ConstDef || node is StaticDef,
    ensures
        node is ConstDef ==> accepted_well(st, check_const_def(st, node)),
        node is StaticDef ==> accepted_well(st, check_static_def(st, node)),
    decreases node, 0int,
{
    match node {
        SpecNode::ConstDef { name, value, pos_start, .. } => {
            lemma_accepted_well(st, *value);
            let (st1, c) = after(st, *value);
            match c.value_type {
                Some(t) => lemma_keeps_declare(st1, name, t, false, pos_start),
                None => {},
            }
        },
        SpecNode::StaticDef { name, value, is_mutable, pos_start, .. } => {
            lemma_accepted_well(st, *value);
            let (st1, c) = after(st, *value);
            match c.value_type {
                Some(t) => lemma_keeps_declare(st1, name, t, is_mutable, pos_start),
                None => {},
            }
        },
        _ => {},
    }
}

/// Checks with one inner node whose state is handed on unchanged.
proof fn lemma_check_inner(st: ValidatorState, node: SpecNode)
    requires
        node is UnaryOp || node is VarAssign || node is Return || node is Cast || node is ReadBytes
            || node is Dereference || node is Accessor,
    ensures
        node is UnaryOp ==> accepted_well(st, check_unary_op(st, node)),
        node is VarAssign ==> accepted_well(st, check_var_assign(st, node)),
        node is Return ==> accepted_well(st, check_return(st, node)),
        node is Cast ==> accepted_well(st, check_cast(st, node)),
        node is ReadBytes ==> accepted_well(st, check_read_bytes(st, node)),
        node is Dereference ==> accepted_well(st, check_dereference(st, node)),
        node is Accessor ==> accepted_well(st, check_accessor(st, node)),
    decreases node, 0int,
{
    match node {
        SpecNode::UnaryOp { node: inner, .. } => lemma_accepted_well(st, *inner),
        SpecNode::VarAssign { value, .. } => lemma_accepted_well(st, *value),
        SpecNode::Return { value, .. } => match value {
            Some(v) => lemma_accepted_well(st, *v),
            None => {},
        },
        SpecNode::Cast { node: inner, .. } => lemma_accepted_well(st, *inner),
        SpecNode::ReadBytes { node: inner, .. } => lemma_accepted_well(st, *inner),
        SpecNode::Dereference { node: inner } => lemma_accepted_well(st, *inner),
        SpecNode::Accessor { node: inner, .. } => lemma_accepted_well(st, *inner),
        _ => {},
    }
}

/// Checks whose inner nodes are checked by a loop.
proof fn lemma_check_loops(st: ValidatorState, node: SpecNode)
    requires
        node is List || node is Call || node is Syscall || node is Import,
    ensures
        node is List ==> accepted_well(st, check_list(st, node)),
        node is Call ==> accepted_well(st, check_call(st, node)),
        node is Syscall ==> accepted_well(st, check_syscall(st, node)),
        node is Import ==> accepted_well(st, check_import(st, node)),
    decreases node, 0int,
{
    match node {
        SpecNode::List { elements, element_type, .. } => lemma_v_list(st, vres_new(), elements, 0, element_type),
        SpecNode::Call { name, args, .. } => match st.get_symbol(name) {
            Some(sym) => match sym.value_type {
                SpecType::Function { args: arg_types, .. } => lemma_v_call_args(st, vres_new(), args, 0, arg_types, Seq::empty()),
                _ => {},
            },
            None => {},
        },
        SpecNode::Syscall { args, .. } => lemma_v_seq(st, vres_new(), args, 0, Seq::empty()),
        SpecNode::Import { node: inner } => match *inner {
            SpecNode::Statements { statements, .. } => lemma_v_seq(st, vres_new(), statements, 0, Seq::empty()),
            _ => {},
        },
        _ => {},
    }
}

proof fn lemma_accepted_well(st: ValidatorState, node: SpecNode)
    ensures
        accepted_well(st, spec_validate(st, node)),
    decreases node, 1int,
{
    match node {
        SpecNode::Statements { .. } => lemma_check_statements(st, node),
        SpecNode::BinOp { .. } => lemma_check_bin_op(st, node),
        SpecNode::VarDeclaration { .. } => lemma_check_var_declaration(st, node),
        SpecNode::FunctionDef { .. } => lemma_check_function_def(st, node),
        SpecNode::FunctionDecl { name, args, return_type, pos_start, .. } => {
            let fn_type = SpecType::Function { args: Seq::new(args.len(), |i: int| args[i].1), ret: Box::new(return_type) };
            lemma_keeps_declare(st, name, fn_type, false, pos_start);
        },
        SpecNode::While { .. } => lemma_check_while(st, node),
        SpecNode::For { .. } => lemma_check_for(st, node),
        SpecNode::If { .. } => lemma_check_if(st, node),
        SpecNode::ConstDef { .. } => lemma_check_def(st, node),
        SpecNode::StaticDef { .. } => lemma_check_def(st, node),
        SpecNode::UnaryOp { .. } => lemma_check_inner(st, node),
        SpecNode::VarAssign { .. } => lemma_check_inner(st, node),
        SpecNode::Return { .. } => lemma_check_inner(st, node),
        SpecNode::Cast { .. } => lemma_check_inner(st, node),
        SpecNode::ReadBytes { .. } => lemma_check_inner(st, node),
        SpecNode::Dereference { .. } => lemma_check_inner(st, node),
        SpecNode::Accessor { .. } => lemma_check_inner(st, node),
        SpecNode::List { .. } => lemma_check_loops(st, node),
        SpecNode::Call { .. } => lemma_check_loops(st, node),
        SpecNode::Syscall { .. } => lemma_check_loops(st, node),
        SpecNode::Import { .. } => lemma_check_loops(st, node),
        _ => {},
    }
}

/// A check that ends without an error gives the node a type, which is no
/// structure, and a rewritten node; and it leaves the scope stack as it
/// was: the same kinds of scopes, as many of them, the same return type to
/// check against, and every enclosing scope unchanged (only the innermost
/// may have gained the names declared at its level). So whatever a nested
/// scope declared is no longer visible.
pub proof fn law_accepted_check(st: ValidatorState, node: SpecNode)
    requires
        spec_validate(st, node) is Some,
        (spec_validate(st, node)->0).1.error is None,
    ensures
        ({
            let (st2, r) = spec_validate(st, node)->0;
            &&& r.value_type is Some
            &&& r.value_type->0.kind() != ValueTypes::Struct
            &&& r.node is Some
            &&& st2.scope_types == st.scope_types
            &&& st2.scopes.len() == st.scopes.len()
            &&& st2.scopes.drop_last() == st.scopes.drop_last()
            &&& st2.fn_return == st.fn_return
            &&& st2.is_in_scope_stack(ScopeType::Loop) == st.is_in_scope_stack(ScopeType::Loop)
            &&& st2.find_first_function() == st.find_first_function()
        }),
{
    lemma_accepted_well(st, node);
}

/// A binary operation that checks has the type the type rules give for its
/// operator and the types of its two operands, each checked in turn and
/// without an error.
pub proof fn law_binary_operation_type(st: ValidatorState, left: SpecNode, op: SpecToken, right: SpecNode)
    requires
        spec_validate(st, SpecNode::BinOp { left: Box::new(left), op, right: Box::new(right) }) is Some,
        (spec_validate(st, SpecNode::BinOp { left: Box::new(left), op, right: Box::new(right) })->0).1.error is None,
    ensures
        ({
            let r = (spec_validate(st, SpecNode::BinOp { left: Box::new(left), op, right: Box::new(right) })->0).1;
            let (st1, c1) = spec_validate(st, left)->0;
            let c2 = (spec_validate(st1, right)->0).1;
            &&& spec_validate(st, left) is Some && c1.error is None && c1.value_type is Some
            &&& spec_validate(st1, right) is Some && c2.error is None && c2.value_type is Some
            &&& r.value_type == c1.value_type->0.bin_op(op.tok_type, c2.value_type->0)
        }),
{
}

/// An assignment is accepted only to a variable that was declared before
/// it and that is mutable when the assignment is made (after its value is
/// checked), and only with a value of the variable's type; the accepted
/// assignment has the value's type.
pub proof fn law_accepted_assignment(st: ValidatorState, name: Seq<char>, value: SpecNode, pos_start: SpecPosition)
    requires
        spec_validate(st, SpecNode::VarAssign { name, value: Box::new(value), pos_start }) is Some,
        (spec_validate(st, SpecNode::VarAssign { name, value: Box::new(value), pos_start })->0).1.error is None,
    ensures
        ({
            let r = (spec_validate(st, SpecNode::VarAssign { name, value: Box::new(value), pos_start })->0).1;
            let (st1, c) = spec_validate(st, value)->0;
            &&& st.has_symbol(name)
            &&& spec_validate(st, value) is Some
            &&& c.error is None
            &&& st1.has_symbol(name)
            &&& st1.is_symbol_mut(name)
            &&& c.value_type is Some
            &&& st1.get_symbol(name)->0.value_type.type_eq(c.value_type->0)
            &&& r.value_type == c.value_type
        }),
{
}

/// The check of `node` from `st` ends without an error.
pub open spec fn accepted(st: ValidatorState, node: SpecNode) -> bool {
    spec_validate(st, node) matches Some((_, r)) && r.error is None
}

/// A declaration is accepted only of a name that no scope has yet, and only
/// with a value whose type is the declared type; the declaration has the
/// value's type.
pub proof fn law_accepted_declaration(
    st: ValidatorState,
    name: Seq<char>,
    var_type: SpecType,
    value: SpecNode,
    is_mutable: bool,
    pos_start: SpecPosition,
)
    requires
        accepted(st, SpecNode::VarDeclaration { name, var_type, value: Box::new(value), is_mutable, pos_start }),
    ensures
        ({
            let r = (spec_validate(st, SpecNode::VarDeclaration { name, var_type, value: Box::new(value), is_mutable, pos_start })->0).1;
            let c = (spec_validate(st, value)->0).1;
            &&& !st.has_symbol(name)
            &&& accepted(st, value)
            &&& c.value_type is Some
            &&& c.value_type->0.type_eq(var_type)
            &&& r.value_type == c.value_type
        }),
{
}

/// A loop is accepted only where its condition is accepted and is a
/// boolean.
pub proof fn law_accepted_while(st: ValidatorState, condition: SpecNode, body: SpecNode)
    requires
        accepted(st, SpecNode::While { condition: Box::new(condition), body: Box::new(body) }),
    ensures
        accepted(st, condition),
        (spec_validate(st, condition)->0).1.value_type matches Some(t) && t.kind() == ValueTypes::Bool,
{
}

/// A `return` is accepted only inside a function: without a value where
/// the function returns `void`, and otherwise with a value of the
/// function's return type; the result records the type returned.
pub proof fn law_accepted_return(st: ValidatorState, value: Option<Box<SpecNode>>, pos_start: SpecPosition, pos_end: SpecPosition)
    requires
        accepted(st, SpecNode::Return { value, pos_start, pos_end }),
    ensures
        ({
            let r = (spec_validate(st, SpecNode::Return { value, pos_start, pos_end })->0).1;
            &&& st.find_first_function() is Some
            &&& match value {
                None => st.find_first_function()->0.kind() == ValueTypes::Void && r.return_type == Some(SpecType::Void),
                Some(v) => {
                    &&& accepted(st, *v)
                    &&& (spec_validate(st, *v)->0).1.value_type matches Some(t) && t.type_eq(st.find_first_function()->0)
                        && r.return_type == Some(t)
                },
            }
        }),
{
}

/// `break` and `continue` are accepted only inside a loop.
pub proof fn law_accepted_break_continue(st: ValidatorState, pos_start: SpecPosition, pos_end: SpecPosition)
    ensures
        accepted(st, SpecNode::Break { pos_start, pos_end }) == st.is_in_scope_stack(ScopeType::Loop),
        accepted(st, SpecNode::Continue { pos_start, pos_end }) == st.is_in_scope_stack(ScopeType::Loop),
{
}

/// A call is accepted only of a declared external function, or of a
/// declared function with as many parameters as the call has arguments;
/// the call of a function has its return type.
pub proof fn law_accepted_call(st: ValidatorState, name: Seq<char>, args: Seq<SpecNode>, pos_start: SpecPosition)
    requires
        accepted(st, SpecNode::Call { name, args, pos_start }),
    ensures
        ({
            let r = (spec_validate(st, SpecNode::Call { name, args, pos_start })->0).1;
            &&& st.has_symbol(name)
            &&& match st.get_symbol(name)->0.value_type {
                SpecType::Function { args: arg_types, ret } => arg_types.len() == args.len() && r.value_type == Some(*ret),
                SpecType::Extern => r.value_type == Some(SpecType::U64),
                _ => false,
            }
        }),
{
    match st.get_symbol(name) {
        Some(sym) => match sym.value_type {
            SpecType::Function { args: arg_types, .. } => {
                lemma_v_call_args(st, vres_new(), args, 0, arg_types, Seq::empty());
            },
            _ => {},
        },
        None => {},
    }
}

/// The symbols of one scope as values.
pub open spec fn scope_view(s: Seq<(String, (Symbol, Position))>) -> Seq<SpecSymbol> {
    Seq::new(
        s.len(),
        |j: int| SpecSymbol { name: s[j].0@, value_type: s[j].1.0.value_type@, is_mutable: s[j].1.0.is_mutable, pos: s[j].1.1@ },
    )
}

/// Checks a syntax tree: keeps the names declared in each scope, the kind of
/// each scope, the return type of the function being checked and the
/// structures defined so far.
pub struct Validator {
    type_stack: Vec<Vec<(String, (Symbol, Position))>>,
    scope_stack: Vec<ScopeType>,
    current_function_return_type: Option<ValueType>,
    structs: Vec<(String, Vec<(String, ValueType)>)>,
}

impl View for Validator {
    type V = ValidatorState;

    closed spec fn view(&self) -> ValidatorState {
        ValidatorState {
            scopes: Seq::new(self.type_stack@.len(), |i: int| scope_view(self.type_stack@[i]@)),
            scope_types: self.scope_stack@,
            fn_return: crate::values::value_type::opt_type_view(self.current_function_return_type),
            structs: Seq::new(self.structs@.len(), |i: int| (self.structs@[i].0@, args_view(self.structs@[i].1@))),
        }
    }
}

proof fn lemma_take_last<A>(s: Seq<A>, i: int)
    requires
        0 <= i < s.len(),
    ensures
        s.take(i + 1).drop_last() == s.take(i),
        s.take(i + 1).last() == s[i],
        s.take(i + 1).len() == i + 1,
{
    assert(s.take(i + 1).drop_last() =~= s.take(i));
}

impl Validator {
    pub fn new() -> (r: Self)
        ensures
            r@ == initial_state(),
            r@.wf(),
    {
        let mut type_stack: Vec<Vec<(String, (Symbol, Position))>> = Vec::new();
        type_stack.push(Vec::new());
        let mut scope_stack: Vec<ScopeType> = Vec::new();
        scope_stack.push(ScopeType::Global);
        let r = Validator { type_stack, scope_stack, current_function_return_type: None, structs: Vec::new() };
        assert(scope_view(r.type_stack@[0]@) =~= Seq::<SpecSymbol>::empty());
        assert(r@.scopes =~= initial_state().scopes);
        assert(r@.scope_types =~= initial_state().scope_types);
        assert(r@.structs =~= initial_state().structs);
        r
    }

    /// Where the symbol called `name` is kept: the scope and the place in it.
    fn find_symbol(&self, name: &str) -> (r: Option<(usize, usize)>)
        ensures
            match r {
                Some((i, j)) => {
                    &&& i < self.type_stack@.len()
                    &&& j < self.type_stack@[i as int]@.len()
                    &&& self.type_stack@[i as int]@[j as int].0@ == name@
                    &&& self@.get_symbol(name@) == Some(scope_view(self.type_stack@[i as int]@)[j as int])
                },
                None => self@.get_symbol(name@) is None,
            },
    {
        let ghost scopes = self@.scopes;
        let mut i: usize = self.type_stack.len();
        assert(scopes.take(scopes.len() as int) =~= scopes);
        while i > 0
            invariant
                i <= self.type_stack@.len(),
                scopes == self@.scopes,
                lookup(scopes, name@) == lookup(scopes.take(i as int), name@),
            decreases i,
        {
            i = i - 1;
            proof {
                lemma_take_last(scopes, i as int);
            }
            let scope = &self.type_stack[i];
            let ghost sv = scope_view(scope@);
            assert(sv == scopes[i as int]);
            let mut j: usize = scope.len();
            assert(sv.take(sv.len() as int) =~= sv);
            while j > 0
                invariant
                    j <= scope@.len(),
                    sv == scope_view(scope@),
                    i < self.type_stack@.len(),
                    scopes == self@.scopes,
                    scope@ == self.type_stack@[i as int]@,
                    sv == scopes[i as int],
                    lookup(scopes, name@) == lookup(scopes.take(i as int + 1), name@),
                    scopes.take(i as int + 1).drop_last() == scopes.take(i as int),
                    scopes.take(i as int + 1).last() == scopes[i as int],
                    find_in_scope(sv, name@) == find_in_scope(sv.take(j as int), name@),
                decreases j,
            {
                j = j - 1;
                proof {
                    lemma_take_last(sv, j as int);
                }
                if crate::text::str_eq(scope[j].0.as_str(), name) {
                    proof {
                        assert(sv[j as int].name == name@);
                        assert(find_in_scope(sv.take(j as int + 1), name@) == Some(sv[j as int]));
                        assert(scopes.take(i as int + 1).last() == sv);
                        assert(lookup(scopes.take(i as int + 1), name@) == Some(sv[j as int]));
                    }
                    return Some((i, j));
                }
            }
            assert(sv.take(0) =~= Seq::<SpecSymbol>::empty());
            assert(find_in_scope(sv, name@) is None);
            assert(scopes.take(i as int + 1).last() == sv);
            assert(lookup(scopes.take(i as int + 1), name@) == lookup(scopes.take(i as int), name@));
        }
        assert(scopes.take(0) =~= Seq::<Seq<SpecSymbol>>::empty());
        None
    }

    pub fn has_symbol(&self, name: &str) -> (r: bool)
        ensures
            r == self@.has_symbol(name@),
    {
        self.find_symbol(name).is_some()
    }

    pub fn is_symbol_mut(&self, name: &str) -> (r: bool)
        ensures
            r == self@.is_symbol_mut(name@),
    {
        let s = self.get_symbol(name);

        match s {
            Some(e) => e.0.is_mutable(),
            None => false,
        }
    }

    /// The symbol called `name` and where it was declared.
    pub fn get_symbol(&self, name: &str) -> (r: Option<&(Symbol, Position)>)
        ensures
            match r {
                Some(e) => self@.get_symbol(name@) == Some(
                    SpecSymbol { name: name@, value_type: e.0.value_type@, is_mutable: e.0.is_mutable, pos: e.1@ },
                ),
                None => self@.get_symbol(name@) is None,
            },
    {
        match self.find_symbol(name) {
            Some((i, j)) => Some(&self.type_stack[i][j].1),
            None => None,
        }
    }

    /// Declares `name` in the innermost scope, unless some scope has it.
    pub fn declare_symbol(&mut self, name: String, sym: Symbol, pos: Position)
        ensures
            final(self)@ == old(self)@.declare_symbol(name@, sym.value_type@, sym.is_mutable, pos@),
    {
        if self.type_stack.len() == 0 {
            return;
        }

        if self.has_symbol(name.as_str()) {
            return;
        }

        let last = self.type_stack.len() - 1;
        let ghost old_view = self@;
        let ghost entry = (name, (sym, pos));
        let mut scope = Vec::new();
        std::mem::swap(&mut scope, &mut self.type_stack[last]);
        scope.push((name, (sym, pos)));
        std::mem::swap(&mut scope, &mut self.type_stack[last]);
        proof {
            let sv = scope_view(self.type_stack@[last as int]@);
            assert(sv =~= old_view.scopes.last().push(SpecSymbol { name: entry.0@, value_type: entry.1.0.value_type@, is_mutable: entry.1.0.is_mutable, pos: entry.1.1@ }));
            assert(self@.scopes =~= old_view.declare_symbol(entry.0@, entry.1.0.value_type@, entry.1.0.is_mutable, entry.1.1@).scopes);
        }
    }

    pub fn push_child_scope(&mut self, scope_type: ScopeType)
        ensures
            final(self)@ == old(self)@.push_child_scope(scope_type),
    {
        self.type_stack.push(Vec::new());
        self.scope_stack.push(scope_type);
        proof {
            assert(scope_view(self.type_stack@.last()@) =~= Seq::<SpecSymbol>::empty());
            assert(self@.scopes =~= old(self)@.push_child_scope(scope_type).scopes);
        }
    }

    /// Leaves the innermost scope; the root scope is never left.
    pub fn pop_child_scope(&mut self)
        requires
            old(self)@.wf(),
            old(self)@.can_pop(),
        ensures
            final(self)@ == old(self)@.pop_child_scope(),
    {
        let _ = self.type_stack.pop();
        let _ = self.scope_stack.pop();
        proof {
            assert(self.type_stack@ =~= old(self).type_stack@.drop_last());
            assert(self@.scopes =~= old(self)@.pop_child_scope().scopes);
        }
    }

    pub fn is_in_scope_stack(&self, scope_type: ScopeType) -> (r: bool)
        ensures
            r == self@.is_in_scope_stack(scope_type),
    {
        let mut i: usize = self.scope_stack.len();
        while i > 0
            invariant
                i <= self.scope_stack@.len(),
                forall|k: int| i <= k < self.scope_stack@.len() ==> self.scope_stack@[k] != scope_type,
            decreases i,
        {
            i = i - 1;
            if self.scope_stack[i] == scope_type {
                return true;
            }
        }
        false
    }

    /// The return type of the function being checked, if inside one.
    pub fn find_first_function(&self) -> (r: Option<ValueType>)
        ensures
            crate::values::value_type::opt_type_view(r) == self@.find_first_function(),
    {
        if self.is_in_scope_stack(ScopeType::Function) {
            return match &self.current_function_return_type {
                Some(t) => Some(t.box_clone()),
                None => None,
            };
        }

        None
    }

    /// The fields of the structure called `name`.
    fn find_struct(&self, name: &str) -> (r: Option<&Vec<(String, ValueType)>>)
        ensures
            match r {
                Some(f) => self@.struct_fields(name@) == Some(args_view(f@)),
                None => self@.struct_fields(name@) is None,
            },
    {
        let ghost ss = self@.structs;
        let mut i: usize = self.structs.len();
        assert(ss.take(ss.len() as int) =~= ss);
        while i > 0
            invariant
                i <= self.structs@.len(),
                ss == self@.structs,
                find_struct(ss, name@) == find_struct(ss.take(i as int), name@),
            decreases i,
        {
            i = i - 1;
            proof {
                lemma_take_last(ss, i as int);
            }
            if crate::text::str_eq(self.structs[i].0.as_str(), name) {
                return Some(&self.structs[i].1);
            }
        }
        assert(ss.take(0) =~= Seq::<(Seq<char>, Seq<(Seq<char>, SpecType)>)>::empty());
        None
    }
}


/// A message made of three parts.
fn message(a: &str, b: &str, c: &str) -> (r: String)
    ensures
        r@ == a@ + b@ + c@,
{
    crate::text::concat3(a, b, c)
}

/// A message made of five parts.
fn message5(a: &str, b: &str, c: &str, d: &str, e: &str) -> (r: String)
    ensures
        r@ == a@ + b@ + c@ + d@ + e@,
{
    let mut s = crate::text::concat3(a, b, c);
    s.append(d);
    s.append(e);
    s
}

impl Validator {
    /// Checks the nodes of `s` in order, up to the first that fails; gives
    /// back the rewritten nodes and whether it stopped on a failure.
    fn validate_seq(&mut self, s: &Vec<Node>, res: &mut ValidationResult) -> (r: (Vec<Node>, bool))
        requires
            old(self)@.wf(),
            v_seq(old(self)@, old(res)@, nodes_view(s@), 0, Seq::empty()) is Some,
        ensures
            final(self)@.wf(),
            v_seq(old(self)@, old(res)@, nodes_view(s@), 0, Seq::empty()) == Some(
                (final(self)@, final(res)@, nodes_view(r.0@), r.1),
            ),
        decreases s, 0int,
    {
        let ghost s_view = nodes_view(s@);
        proof {
            lemma_nodes_view(s@);
        }
        let mut acc: Vec<Node> = Vec::new();
        let mut i: usize = 0;
        while i < s.len()
            invariant
                i <= s@.len(),
                s_view == nodes_view(s@),
                s_view.len() == s@.len(),
                forall|k: int| 0 <= k < s@.len() ==> #[trigger] s_view[k] == s@[k]@,
                self@.wf(),
                v_seq(self@, res@, s_view, i as int, nodes_view(acc@)) == v_seq(
                    old(self)@,
                    old(res)@,
                    s_view,
                    0,
                    Seq::empty(),
                ),
                v_seq(old(self)@, old(res)@, s_view, 0, Seq::empty()) is Some,
            decreases s@.len() - i,
        {
            proof {
                assert(decreases_to!(s => s@));
                assert(decreases_to!(s@ => s@[i as int]));
            }
            let child = self.validate(&s[i]);
            let (_, n) = res.register_res(child);
            if res.has_error() {
                return (acc, true);
            }
            match n {
                Some(n) => {
                    proof {
                        lemma_nodes_view_push(acc@, n);
                    }
                    acc.push(n);
                },
                None => {
                    return (acc, true);
                },
            }
            i = i + 1;
        }
        (acc, false)
    }

    /// Checks the elements of a list against `element_type`; gives back
    /// whether it stopped on a failure.
    fn validate_list_elements(&mut self, s: &Vec<Node>, element_type: &ValueType, res: &mut ValidationResult) -> (r: bool)
        requires
            old(self)@.wf(),
            v_list(old(self)@, old(res)@, nodes_view(s@), 0, element_type@) is Some,
        ensures
            final(self)@.wf(),
            v_list(old(self)@, old(res)@, nodes_view(s@), 0, element_type@) == Some((final(self)@, final(res)@, r)),
        decreases s, 0int,
    {
        let ghost s_view = nodes_view(s@);
        proof {
            lemma_nodes_view(s@);
        }
        let mut i: usize = 0;
        while i < s.len()
            invariant
                i <= s@.len(),
                s_view == nodes_view(s@),
                s_view.len() == s@.len(),
                forall|k: int| 0 <= k < s@.len() ==> #[trigger] s_view[k] == s@[k]@,
                self@.wf(),
                v_list(self@, res@, s_view, i as int, element_type@) == v_list(
                    old(self)@,
                    old(res)@,
                    s_view,
                    0,
                    element_type@,
                ),
                v_list(old(self)@, old(res)@, s_view, 0, element_type@) is Some,
            decreases s@.len() - i,
        {
            proof {
                assert(decreases_to!(s => s@));
                assert(decreases_to!(s@ => s@[i as int]));
            }
            let child = self.validate(&s[i]);
            let (t, _) = res.register_res(child);
            if res.has_error() {
                return true;
            }
            match t {
                Some(t) => {
                    if !t.eq(element_type) {
                        let m = message5("Type ", t.to_string().as_str(), ", is incompatible with list type ", element_type.to_string().as_str(), "!");
                        res.failure(error::semantic_error(s[i].pos_start(), s[i].pos_end(), m.as_str()));
                        return true;
                    }
                },
                None => {
                    return true;
                },
            }
            i = i + 1;
        }
        false
    }

    /// Checks the arguments of a call against `arg_types`; gives back the
    /// rewritten arguments and whether it stopped on a failure.
    fn validate_call_args(&mut self, s: &Vec<Node>, arg_types: &Vec<ValueType>, res: &mut ValidationResult) -> (r: (
        Vec<Node>,
        bool,
    ))
        requires
            old(self)@.wf(),
            v_call_args(old(self)@, old(res)@, nodes_view(s@), 0, types_view(arg_types@), Seq::empty()) is Some,
        ensures
            final(self)@.wf(),
            v_call_args(old(self)@, old(res)@, nodes_view(s@), 0, types_view(arg_types@), Seq::empty()) == Some(
                (final(self)@, final(res)@, nodes_view(r.0@), r.1),
            ),
        decreases s, 0int,
    {
        let ghost s_view = nodes_view(s@);
        let ghost tv = types_view(arg_types@);
        proof {
            lemma_nodes_view(s@);
            lemma_types_view(arg_types@);
        }
        let mut acc: Vec<Node> = Vec::new();
        let mut i: usize = 0;
        while i < s.len()
            invariant
                i <= s@.len(),
                s_view == nodes_view(s@),
                s_view.len() == s@.len(),
                forall|k: int| 0 <= k < s@.len() ==> #[trigger] s_view[k] == s@[k]@,
                tv == types_view(arg_types@),
                tv.len() == arg_types@.len(),
                forall|k: int| 0 <= k < arg_types@.len() ==> #[trigger] tv[k] == arg_types@[k]@,
                self@.wf(),
                v_call_args(self@, res@, s_view, i as int, tv, nodes_view(acc@)) == v_call_args(
                    old(self)@,
                    old(res)@,
                    s_view,
                    0,
                    tv,
                    Seq::empty(),
                ),
                v_call_args(old(self)@, old(res)@, s_view, 0, tv, Seq::empty()) is Some,
            decreases s@.len() - i,
        {
            proof {
                assert(decreases_to!(s => s@));
                assert(decreases_to!(s@ => s@[i as int]));
            }
            let child = self.validate(&s[i]);
            let (t, n) = res.register_res(child);
            if res.has_error() {
                return (acc, true);
            }
            match t {
                Some(t) => {
                    if i >= arg_types.len() {
                        return (acc, true);
                    }
                    if !t.eq(&arg_types[i]) {
                        let mut m = message("Expected type '", arg_types[i].to_string().as_str(), "' as argument at index ");
                        m.append(crate::text::usize_to_string(i).as_str());
                        m.append(", got '");
                        m.append(t.to_string().as_str());
                        m.append("'!");
                        res.failure(error::semantic_error(s[i].pos_start(), s[i].pos_end(), m.as_str()));
                        return (acc, true);
                    }
                    match n {
                        Some(n) => {
                            proof {
                                lemma_nodes_view_push(acc@, n);
                            }
                            acc.push(n);
                        },
                        None => {
                            return (acc, true);
                        },
                    }
                },
                None => {
                    return (acc, true);
                },
            }
            i = i + 1;
        }
        (acc, false)
    }

    /// Checks the cases of an `if`; gives back the rewritten cases and
    /// whether it stopped on a failure.
    fn validate_cases(&mut self, s: &Vec<(Node, Node)>, if_start: &Position, if_end: &Position, res: &mut ValidationResult) -> (r: (
        Vec<(Node, Node)>,
        bool,
    ))
        requires
            old(self)@.wf(),
            v_cases(old(self)@, old(res)@, cases_view(s@), 0, Seq::empty(), if_start@, if_end@) is Some,
        ensures
            final(self)@.wf(),
            v_cases(old(self)@, old(res)@, cases_view(s@), 0, Seq::empty(), if_start@, if_end@) == Some(
                (final(self)@, final(res)@, cases_view(r.0@), r.1),
            ),
        decreases s, 0int,
    {
        let ghost s_view = cases_view(s@);
        proof {
            crate::nodes::lemma_cases_view(s@);
        }
        let mut acc: Vec<(Node, Node)> = Vec::new();
        let mut i: usize = 0;
        while i < s.len()
            invariant
                i <= s@.len(),
                s_view == cases_view(s@),
                s_view.len() == s@.len(),
                forall|k: int| 0 <= k < s@.len() ==> #[trigger] s_view[k] == (s@[k].0@, s@[k].1@),
                self@.wf(),
                v_cases(self@, res@, s_view, i as int, cases_view(acc@), if_start@, if_end@) == v_cases(
                    old(self)@,
                    old(res)@,
                    s_view,
                    0,
                    Seq::empty(),
                    if_start@,
                    if_end@,
                ),
                v_cases(old(self)@, old(res)@, s_view, 0, Seq::empty(), if_start@, if_end@) is Some,
            decreases s@.len() - i,
        {
            proof {
                assert(decreases_to!(s => s@));
                assert(decreases_to!(s@ => s@[i as int]));
                assert(decreases_to!(s@[i as int] => s@[i as int].0));
                assert(decreases_to!(s@[i as int] => s@[i as int].1));
            }
            let child = self.validate(&s[i].0);
            let (condition_type, condition_node) = res.register_res(child);
            if res.has_error() {
                return (acc, true);
            }
            match condition_type {
                Some(ct) => {
                    if ct.value_type() != ValueTypes::Bool {
                        res.failure(error::semantic_error(if_start.clone(), if_end.clone(), "Condition must be of type bool!"));
                        return (acc, true);
                    }
                },
                None => {
                    return (acc, true);
                },
            }
            self.push_child_scope(ScopeType::Block);
            let child2 = self.validate(&s[i].1);
            let (_, statements) = res.register_res(child2);
            self.pop_child_scope();

            if res.has_error() {
                return (acc, true);
            }

            match (condition_node, statements) {
                (Some(cn), Some(sn)) => {
                    proof {
                        crate::nodes::lemma_cases_view_push(acc@, (cn, sn));
                    }
                    acc.push((cn, sn));
                },
                _ => {
                    return (acc, true);
                },
            }
            i = i + 1;
        }
        (acc, false)
    }


    /// Checks `node`, giving it a type and rewriting it for code
    /// generation.
    pub fn validate(&mut self, node: &Node) -> (res: ValidationResult)
        requires
            old(self)@.wf(),
            spec_validate(old(self)@, node@) is Some,
        ensures
            final(self)@.wf(),
            spec_validate(old(self)@, node@) == Some((final(self)@, res@)),
        decreases node, 2int,
    {
        match node {
            Node::Statements { .. } => self.validate_statements_node(node),
            Node::Number { .. } => self.validate_number_node(node),
            Node::String { .. } => self.validate_string_node(node),
            Node::Char { .. } => self.validate_char_node(node),
            Node::List { .. } => self.validate_list_node(node),
            Node::BinOp { .. } => self.validate_bin_op_node(node),
            Node::UnaryOp { .. } => self.validate_unary_op_node(node),
            Node::VarDeclaration(_) => self.validate_var_declaration_node(node),
            Node::VarAssign(_) => self.validate_var_assign_node(node),
            Node::VarAccess(_) => self.validate_var_access_node(node),
            Node::FunctionDef { .. } => self.validate_function_def_node(node),
            Node::FunctionDecl { .. } => self.validate_function_decl_node(node),
            Node::Call { .. } => self.validate_call_node(node),
            Node::Return { .. } => self.validate_return_node(node),
            Node::Break { .. } => self.validate_break_node(node),
            Node::Continue { .. } => self.validate_continue_node(node),
            Node::Syscall { .. } => self.validate_syscall_node(node),
            Node::While(_) => self.validate_while_node(node),
            Node::For { .. } => self.validate_for_node(node),
            Node::If { .. } => self.validate_if_node(node),
            Node::Cast { .. } => self.validate_cast_node(node),
            Node::ConstDef { .. } => self.validate_const_def_node(node),
            Node::SizeOf { .. } => self.validate_sizeof_node(node),
            Node::StaticDef { .. } => self.validate_static_def_node(node),
            Node::StructDef { .. } => self.validate_struct_def_node(node),
            Node::ReadBytes { .. } => self.validate_read_bytes_node(node),
            Node::Dereference { .. } => self.validate_dereference_node(node),
            Node::Import { .. } => self.validate_import_node(node),
            Node::MacroDef { .. } => self.validate_macro_def_node(node),
            Node::Ignored { .. } => self.validate_ignored_node(node),
            Node::Accessor { .. } => self.validate_accessor_node(node),
            _ => unreached(),
        }
    }

    
    fn validate_statements_node(&mut self, node: &Node) -> (res: ValidationResult)
        requires
            old(self)@.wf(),
            node is Statements,
            check_statements(old(self)@, node@) is Some,
        ensures
            final(self)@.wf(),
            check_statements(old(self)@, node@) == Some((final(self)@, res@)),
        decreases node, 1int,
    {
        match node {
            Node::Statements { statements, pos_start, pos_end } => {
                let mut res = ValidationResult::new();

                self.push_child_scope(ScopeType::Block);

                let (stmts, stopped) = self.validate_seq(statements, &mut res);
                if stopped {
                    return res;
                }

                self.pop_child_scope();

                res.success(
                    ValueType::Ignored(IgnoredType::new()),
                    Node::Statements { statements: stmts, pos_start: pos_start.clone(), pos_end: pos_end.clone() },
                );
                res
            },
            _ => unreached(),
        }
    }

    
    fn validate_number_node(&mut self, node: &Node) -> (res: ValidationResult)
        requires
            old(self)@.wf(),
            node is Number,
            spec_validate(old(self)@, node@) is Some,
        ensures
            final(self)@.wf(),
            spec_validate(old(self)@, node@) == Some((final(self)@, res@)),
    {
        match node {
            Node::Number { .. } => {
                let mut res = ValidationResult::new();

                res.success(ValueType::U64(NumberType::new()), node.box_clone());
                res
            },
            _ => unreached(),
        }
    }

    
    fn validate_string_node(&mut self, node: &Node) -> (res: ValidationResult)
        requires
            old(self)@.wf(),
            node is String,
            spec_validate(old(self)@, node@) is Some,
        ensures
            final(self)@.wf(),
            spec_validate(old(self)@, node@) == Some((final(self)@, res@)),
    {
        match node {
            Node::String { .. } => {
                let mut res = ValidationResult::new();

                res.success(ValueType::String(StringType::new()), node.box_clone());
                res
            },
            _ => unreached(),
        }
    }

    
    fn validate_char_node(&mut self, node: &Node) -> (res: ValidationResult)
        requires
            old(self)@.wf(),
            node is Char,
            spec_validate(old(self)@, node@) is Some,
        ensures
            final(self)@.wf(),
            spec_validate(old(self)@, node@) == Some((final(self)@, res@)),
    {
        match node {
            Node::Char { .. } => {
                let mut res = ValidationResult::new();

                res.success(ValueType::Char(CharType::new()), node.box_clone());
                res
            },
            _ => unreached(),
        }
    }

    
    fn validate_list_node(&mut self, node: &Node) -> (res: ValidationResult)
        requires
            old(self)@.wf(),
            node is List,
            check_list(old(self)@, node@) is Some,
        ensures
            final(self)@.wf(),
            check_list(old(self)@, node@) == Some((final(self)@, res@)),
        decreases node, 1int,
    {
        match node {
            Node::List { elements, element_type, .. } => {
                let mut res = ValidationResult::new();

                let stopped = self.validate_list_elements(elements, element_type, &mut res);
                if stopped {
                    return res;
                }

                res.success(ValueType::Pointer(PointerType::new(element_type.box_clone(), true)), node.box_clone());
                res
            },
            _ => unreached(),
        }
    }

    
    fn validate_bin_op_node(&mut self, node: &Node) -> (res: ValidationResult)
        requires
            old(self)@.wf(),
            node is BinOp,
            check_bin_op(old(self)@, node@) is Some,
        ensures
            final(self)@.wf(),
            check_bin_op(old(self)@, node@) == Some((final(self)@, res@)),
        decreases node, 1int,
    {
        match node {
            Node::BinOp { left, op, right } => {
                let mut res = ValidationResult::new();

                let (left_type, left_node) = res.register_res(self.validate(left));
                if res.has_error() {
                    return res;
                }

                let (right_type, right_node) = res.register_res(self.validate(right));
                if res.has_error() {
                    return res;
                }

                let (lt, rt) = match (left_type, right_type) {
                    (Some(lt), Some(rt)) => (lt, rt),
                    _ => {
                        return res;
                    },
                };

                let result_type = lt.is_valid_bin_op(op, &rt);
                let result_type = match result_type {
                    Some(t) => t,
                    None => {
                        let mut m = message("Binary operation '", op.to_string().as_str(), "' not allowed between value_type ");
                        m.append(lt.to_string().as_str());
                        m.append(" and ");
                        m.append(rt.to_string().as_str());
                        m.append("!");
                        res.failure(error::semantic_error(node.pos_start(), node.pos_end(), m.as_str()));
                        return res;
                    },
                };

                let (ln, rn) = match (left_node, right_node) {
                    (Some(ln), Some(rn)) => (ln, rn),
                    _ => {
                        return res;
                    },
                };

                if op.token_type() == TokenType::PointerAssign {
                    match &lt {
                        ValueType::Pointer(p) => {
                            res.success(
                                result_type,
                                Node::PointerAssign {
                                    ptr: Box::new(ln),
                                    pointee_type: p.pointee_type().box_clone(),
                                    value: Box::new(rn),
                                },
                            );
                        },
                        _ => {},
                    }
                    return res;
                }
                if op.token_type() == TokenType::Offset {
                    match &lt {
                        ValueType::Pointer(p) => {
                            res.success(
                                result_type,
                                Node::Offset {
                                    left: Box::new(ln),
                                    right: Box::new(rn),
                                    pointee_type: p.pointee_type().box_clone(),
                                },
                            );
                        },
                        _ => {},
                    }
                    return res;
                }

                res.success(result_type, Node::BinOp { left: Box::new(ln), op: op.clone(), right: Box::new(rn) });
                res
            },
            _ => unreached(),
        }
    }

    
    fn validate_unary_op_node(&mut self, node: &Node) -> (res: ValidationResult)
        requires
            old(self)@.wf(),
            node is UnaryOp,
            check_unary_op(old(self)@, node@) is Some,
        ensures
            final(self)@.wf(),
            check_unary_op(old(self)@, node@) == Some((final(self)@, res@)),
        decreases node, 1int,
    {
        match node {
            Node::UnaryOp { op, node: inner } => {
                let mut res = ValidationResult::new();

                let (right, right_node) = res.register_res(self.validate(inner));
                if res.has_error() {
                    return res;
                }

                let right = match right {
                    Some(t) => t,
                    None => {
                        return res;
                    },
                };

                let result_type = right.is_valid_unary_op(op);
                let result_type = match result_type {
                    Some(t) => t,
                    None => {
                        let m = message5("Unary operation '", op.to_string().as_str(), "' not allowed on type ", right.to_string().as_str(), "!");
                        res.failure(error::semantic_error(node.pos_start(), node.pos_end(), m.as_str()));
                        return res;
                    },
                };

                match right_node {
                    Some(rn) => {
                        res.success(result_type, Node::UnaryOp { op: op.clone(), node: Box::new(rn) });
                    },
                    None => {},
                }
                res
            },
            _ => unreached(),
        }
    }

    
    fn validate_var_declaration_node(&mut self, node: &Node) -> (res: ValidationResult)
        requires
            old(self)@.wf(),
            node is VarDeclaration,
            check_var_declaration(old(self)@, node@) is Some,
        ensures
            final(self)@.wf(),
            check_var_declaration(old(self)@, node@) == Some((final(self)@, res@)),
        decreases node, 1int,
    {
        match node {
            Node::VarDeclaration(n) => {
                let mut res = ValidationResult::new();

                if self.has_symbol(n.var_name()) {
                    let decl_pos = match self.get_symbol(n.var_name()) {
                        Some(e) => e.1.clone(),
                        None => Position::empty(),
                    };
                    let m = message("Variable '", n.var_name(), "' was already declared in this scope!");
                    let m2 = message("Previous declaration of '", n.var_name(), "'");
                    res.failure(error::semantic_error_with_parent(
                        n.pos_start().clone(),
                        node.pos_end(),
                        m.as_str(),
                        error::semantic_error(decl_pos.clone(), decl_pos, m2.as_str()),
                    ));
                    return res;
                }

                let (t, value_node) = res.register_res(self.validate(n.value_node()));
                if res.has_error() {
                    return res;
                }

                let symbol_type = match t {
                    Some(t) => t,
                    None => {
                        return res;
                    },
                };

                if !symbol_type.eq(n.var_type()) {
                    let m = message5("Type '", symbol_type.to_string().as_str(), "' can't be assigned to type '", n.var_type().to_string().as_str(), "'!");
                    res.failure(error::semantic_error(n.pos_start().clone(), node.pos_end(), m.as_str()));
                    return res;
                }

                let value_node = match value_node {
                    Some(v) => v,
                    None => {
                        return res;
                    },
                };

                self.declare_symbol(
                    n.var_name.clone(),
                    Symbol::new(symbol_type.box_clone(), n.is_mutable()),
                    n.pos_start().clone(),
                );
                res.success(
                    symbol_type,
                    Node::VarDeclaration(VarDeclarationNode::new(
                        n.var_name.clone(),
                        n.var_type().box_clone(),
                        value_node,
                        n.is_mutable(),
                        n.pos_start().clone(),
                    )),
                );
                res
            },
            _ => unreached(),
        }
    }

    
    fn validate_var_assign_node(&mut self, node: &Node) -> (res: ValidationResult)
        requires
            old(self)@.wf(),
            node is VarAssign,
            check_var_assign(old(self)@, node@) is Some,
        ensures
            final(self)@.wf(),
            check_var_assign(old(self)@, node@) == Some((final(self)@, res@)),
        decreases node, 1int,
    {
        match node {
            Node::VarAssign(n) => {
                let mut res = ValidationResult::new();

                if !self.has_symbol(n.var_name()) {
                    let m = message("Variable '", n.var_name(), "' was not declared in this scope!");
                    res.failure(error::semantic_error(n.pos_start().clone(), node.pos_end(), m.as_str()));
                    return res;
                }

                let (assign_type, assign_node) = res.register_res(self.validate(n.value_node()));
                if res.has_error() {
                    return res;
                }

                let assign_type = match assign_type {
                    Some(t) => t,
                    None => {
                        return res;
                    },
                };

                let (matches, var_type_text) = match self.get_symbol(n.var_name()) {
                    Some(e) => (e.0.value_type().eq(&assign_type), e.0.value_type().to_string()),
                    None => {
                        return res;
                    },
                };

                if !matches {
                    let m = message5("Variable type ", var_type_text.as_str(), " does not match assign type ", assign_type.to_string().as_str(), "!");
                    res.failure(error::semantic_error(n.pos_start().clone(), node.pos_end(), m.as_str()));
                    return res;
                }

                if !self.is_symbol_mut(n.var_name()) {
                    let m = message("Variable '", n.var_name(), "' is not mutable!");
                    res.failure(error::semantic_error(n.pos_start().clone(), node.pos_end(), m.as_str()));
                    return res;
                }

                match assign_node {
                    Some(an) => {
                        res.success(
                            assign_type.box_clone(),
                            Node::VarTypedAssign(VarTypedAssignNode::new(
                                n.var_name.clone(),
                                an,
                                assign_type,
                                n.pos_start().clone(),
                            )),
                        );
                    },
                    None => {},
                }
                res
            },
            _ => unreached(),
        }
    }

    
    fn validate_var_access_node(&mut self, node: &Node) -> (res: ValidationResult)
        requires
            old(self)@.wf(),
            node is VarAccess,
            check_var_access(old(self)@, node@) is Some,
        ensures
            final(self)@.wf(),
            check_var_access(old(self)@, node@) == Some((final(self)@, res@)),
    {
        match node {
            Node::VarAccess(n) => {
                let mut res = ValidationResult::new();

                let base_type = match self.get_symbol(n.var_name()) {
                    Some(e) => e.0.value_type().box_clone(),
                    None => {
                        let m = message("Variable '", n.var_name(), "' wasn't declared in this scope!");
                        res.failure(error::semantic_error(n.pos_start().clone(), n.pos_end().clone(), m.as_str()));
                        return res;
                    },
                };

                res.success(
                    base_type.box_clone(),
                    Node::VarTypedAccess(VarTypedAccessNode::new(
                        n.var_name.clone(),
                        base_type,
                        n.pos_start().clone(),
                        n.pos_end().clone(),
                    )),
                );
                res
            },
            _ => unreached(),
        }
    }


    /// The types of the named arguments, in order.
    fn arg_types_of(args: &Vec<(String, ValueType)>) -> (r: Vec<ValueType>)
        ensures
            types_view(r@) == Seq::new(args_view(args@).len(), |i: int| args_view(args@)[i].1),
    {
        let mut arg_types: Vec<ValueType> = Vec::new();
        let mut i: usize = 0;
        while i < args.len()
            invariant
                i <= args@.len(),
                arg_types@.len() == i,
                forall|k: int| 0 <= k < i ==> #[trigger] arg_types@[k]@ == args@[k].1@,
            decreases args@.len() - i,
        {
            arg_types.push(args[i].1.box_clone());
            i = i + 1;
        }
        proof {
            lemma_types_view(arg_types@);
            assert(types_view(arg_types@) =~= Seq::new(args_view(args@).len(), |i: int| args_view(args@)[i].1));
        }
        arg_types
    }

    fn validate_function_def_node(&mut self, node: &Node) -> (res: ValidationResult)
        requires
            old(self)@.wf(),
            node is FunctionDef,
            check_function_def(old(self)@, node@) is Some,
        ensures
            final(self)@.wf(),
            check_function_def(old(self)@, node@) == Some((final(self)@, res@)),
        decreases node, 1int,
    {
        match node {
            Node::FunctionDef { name, args, return_type, body, pos_start } => {
                let mut res = ValidationResult::new();

                if self.has_symbol(name.as_str()) {
                    let m = message("Function or variable with name '", name.as_str(), "' was already declared in this scope!");
                    res.failure(error::semantic_error(pos_start.clone(), node.pos_end(), m.as_str()));
                    return res;
                }

                if crate::text::str_eq(name.as_str(), "main") {
                    if return_type.value_type() != ValueTypes::U64 {
                        res.failure(error::semantic_error(pos_start.clone(), node.pos_end(), "Main function must return type 'number'!"));
                        return res;
                    }

                    if args.len() != 2 {
                        res.failure(error::semantic_error(pos_start.clone(), node.pos_end(), "Main function must have two parameters!"));
                        return res;
                    }

                    if args[0].1.value_type() != ValueTypes::U64 {
                        res.failure(error::semantic_error(pos_start.clone(), node.pos_end(), "First parameter of main function must be of type 'number'!"));
                        return res;
                    }

                    let second_ok = match &args[1].1 {
                        ValueType::Pointer(p) => p.pointee_type().value_type() == ValueTypes::Char,
                        _ => false,
                    };
                    if !second_ok {
                        res.failure(error::semantic_error(pos_start.clone(), node.pos_end(), "Second parameter of main function must be a pointer to a character!"));
                        return res;
                    }
                }

                let arg_types = Self::arg_types_of(args);

                self.declare_symbol(
                    name.clone(),
                    Symbol::new(ValueType::Function(FunctionType::new(arg_types, return_type.box_clone())), false),
                    pos_start.clone(),
                );

                self.push_child_scope(ScopeType::Function);
                let old_return_type = match &self.current_function_return_type {
                    Some(t) => Some(t.box_clone()),
                    None => None,
                };
                self.current_function_return_type = Some(return_type.box_clone());

                let ghost av = args_view(args@);
                let ghost st2 = self@;
                let mut i: usize = 0;
                proof {
                    assert(av.take(0) =~= Seq::<(Seq<char>, SpecType)>::empty());
                }
                while i < args.len()
                    invariant
                        i <= args@.len(),
                        av == args_view(args@),
                        self@.wf(),
                        self@ == declare_args(st2, av.take(i as int), pos_start@),
                    decreases args@.len() - i,
                {
                    proof {
                        lemma_take_last(av, i as int);
                    }
                    self.declare_symbol(args[i].0.clone(), Symbol::new(args[i].1.box_clone(), true), pos_start.clone());
                    i = i + 1;
                }
                proof {
                    assert(av.take(av.len() as int) =~= av);
                }

                let (_, body_node) = res.register_res(self.validate(body));

                self.pop_child_scope();
                self.current_function_return_type = old_return_type;

                if res.has_error() {
                    let parent = match res.error() {
                        Some(e) => e.clone(),
                        None => error::semantic_error(Position::empty(), Position::empty(), ""),
                    };
                    res.failure(error::semantic_error_with_parent(pos_start.clone(), node.pos_end(), "Function definition failed!", parent));
                    return res;
                }

                let returned = match res.return_type() {
                    Some(rt) => rt.box_clone(),
                    None => {
                        res.failure(error::semantic_error(node.pos_end(), node.pos_end(), "No return statement given!"));
                        return res;
                    },
                };

                if !returned.eq(return_type) {
                    let m = message5("Function return type is '", return_type.to_string().as_str(), "', returned was '", returned.to_string().as_str(), "'!");
                    res.failure(error::semantic_error(node.pos_end(), node.pos_end(), m.as_str()));
                    return res;
                }

                match body_node {
                    Some(bn) => {
                        res.success(
                            ValueType::Ignored(IgnoredType::new()),
                            Node::FunctionDef {
                                name: name.clone(),
                                args: crate::nodes::clone_args(args),
                                return_type: return_type.box_clone(),
                                body: Box::new(bn),
                                pos_start: pos_start.clone(),
                            },
                        );
                    },
                    None => {},
                }
                res
            },
            _ => unreached(),
        }
    }

    fn validate_function_decl_node(&mut self, node: &Node) -> (res: ValidationResult)
        requires
            old(self)@.wf(),
            node is FunctionDecl,
            check_function_decl(old(self)@, node@) is Some,
        ensures
            final(self)@.wf(),
            check_function_decl(old(self)@, node@) == Some((final(self)@, res@)),
    {
        match node {
            Node::FunctionDecl { name, args, return_type, pos_start, pos_end } => {
                let mut res = ValidationResult::new();

                if self.has_symbol(name.as_str()) {
                    let m = message("Function or variable with name '", name.as_str(), "' was already declared in this scope!");
                    res.failure(error::semantic_error(pos_start.clone(), pos_end.clone(), m.as_str()));
                    return res;
                }

                let arg_types = Self::arg_types_of(args);

                self.declare_symbol(
                    name.clone(),
                    Symbol::new(ValueType::Function(FunctionType::new(arg_types, return_type.box_clone())), false),
                    pos_start.clone(),
                );

                res.success(ValueType::Ignored(IgnoredType::new()), node.box_clone());
                res
            },
            _ => unreached(),
        }
    }

    fn validate_call_node(&mut self, node: &Node) -> (res: ValidationResult)
        requires
            old(self)@.wf(),
            node is Call,
            check_call(old(self)@, node@) is Some,
        ensures
            final(self)@.wf(),
            check_call(old(self)@, node@) == Some((final(self)@, res@)),
        decreases node, 1int,
    {
        match node {
            Node::Call { name, args, pos_start } => {
                let mut res = ValidationResult::new();

                let symbol_type = match self.get_symbol(name.as_str()) {
                    Some(e) => e.0.value_type().box_clone(),
                    None => {
                        let m = message("'", name.as_str(), "' was not declared in this scope!");
                        res.failure(error::semantic_error(pos_start.clone(), pos_start.clone(), m.as_str()));
                        return res;
                    },
                };

                match &symbol_type {
                    ValueType::Function(function_type) => {
                        proof {
                            lemma_types_view(function_type.arg_types@);
                            lemma_nodes_view(args@);
                        }
                        if function_type.arg_types().len() != args.len() {
                            let mut m = message("Function expected ", usize_to_string(function_type.arg_types().len()).as_str(), " arguments. ");
                            m.append(usize_to_string(args.len()).as_str());
                            m.append(" were passed!");
                            res.failure(error::semantic_error(pos_start.clone(), pos_start.clone(), m.as_str()));
                            return res;
                        }

                        let (arg_nodes, stopped) = self.validate_call_args(args, function_type.arg_types(), &mut res);
                        if stopped {
                            return res;
                        }

                        res.success(
                            function_type.return_type().box_clone(),
                            Node::Call { name: name.clone(), args: arg_nodes, pos_start: pos_start.clone() },
                        );
                        res
                    },
                    ValueType::Extern(_) => {
                        res.success(ValueType::U64(NumberType::new()), node.box_clone());
                        res
                    },
                    _ => {
                        let m = message("'", name.as_str(), "' is not a function!");
                        res.failure(error::semantic_error(pos_start.clone(), pos_start.clone(), m.as_str()));
                        res
                    },
                }
            },
            _ => unreached(),
        }
    }

    fn validate_return_node(&mut self, node: &Node) -> (res: ValidationResult)
        requires
            old(self)@.wf(),
            node is Return,
            check_return(old(self)@, node@) is Some,
        ensures
            final(self)@.wf(),
            check_return(old(self)@, node@) == Some((final(self)@, res@)),
        decreases node, 1int,
    {
        match node {
            Node::Return { value, pos_start, pos_end } => {
                let mut res = ValidationResult::new();

                let function_return_type = match self.find_first_function() {
                    Some(t) => t,
                    None => {
                        res.failure(error::semantic_error(pos_start.clone(), pos_end.clone(), "Return statement outside of function!"));
                        return res;
                    },
                };

                match value {
                    None => {
                        if function_return_type.value_type() != ValueTypes::Void {
                            res.failure(error::semantic_error(pos_start.clone(), pos_end.clone(), "Function return type is not void!"));
                            return res;
                        }

                        res.success_return(ValueType::Void(VoidType::new()));
                        res.success(
                            ValueType::Ignored(IgnoredType::new()),
                            Node::Return { value: None, pos_start: pos_start.clone(), pos_end: pos_end.clone() },
                        );
                        res
                    },
                    Some(v) => {
                        let (return_type, return_node) = res.register_res(self.validate(v));
                        if res.has_error() {
                            return res;
                        }

                        let return_type = match return_type {
                            Some(t) => t,
                            None => {
                                return res;
                            },
                        };

                        if !return_type.eq(&function_return_type) {
                            let m = message5("Expected return type '", function_return_type.to_string().as_str(), "', got '", return_type.to_string().as_str(), "'!");
                            res.failure(error::semantic_error(pos_start.clone(), pos_end.clone(), m.as_str()));
                            return res;
                        }

                        res.success_return(return_type);
                        match return_node {
                            Some(rn) => {
                                res.success(
                                    ValueType::Ignored(IgnoredType::new()),
                                    Node::Return { value: Some(Box::new(rn)), pos_start: pos_start.clone(), pos_end: pos_end.clone() },
                                );
                            },
                            None => {},
                        }
                        res
                    },
                }
            },
            _ => unreached(),
        }
    }

    fn validate_break_node(&mut self, node: &Node) -> (res: ValidationResult)
        requires
            old(self)@.wf(),
            node is Break,
            check_break(old(self)@, node@) is Some,
        ensures
            final(self)@.wf(),
            check_break(old(self)@, node@) == Some((final(self)@, res@)),
    {
        match node {
            Node::Break { pos_start, pos_end } => {
                let mut res = ValidationResult::new();

                if !self.is_in_scope_stack(ScopeType::Loop) {
                    res.failure(error::semantic_error(pos_start.clone(), pos_end.clone(), "Break statement outside of loop!"));
                    return res;
                }

                res.success(ValueType::Ignored(IgnoredType::new()), node.box_clone());
                res
            },
            _ => unreached(),
        }
    }

    fn validate_continue_node(&mut self, node: &Node) -> (res: ValidationResult)
        requires
            old(self)@.wf(),
            node is Continue,
            check_continue(old(self)@, node@) is Some,
        ensures
            final(self)@.wf(),
            check_continue(old(self)@, node@) == Some((final(self)@, res@)),
    {
        match node {
            Node::Continue { pos_start, pos_end } => {
                let mut res = ValidationResult::new();

                if !self.is_in_scope_stack(ScopeType::Loop) {
                    res.failure(error::semantic_error(pos_start.clone(), pos_end.clone(), "Continue statement outside of loop!"));
                    return res;
                }

                res.success(ValueType::Ignored(IgnoredType::new()), node.box_clone());
                res
            },
            _ => unreached(),
        }
    }

    fn validate_syscall_node(&mut self, node: &Node) -> (res: ValidationResult)
        requires
            old(self)@.wf(),
            node is Syscall,
            check_syscall(old(self)@, node@) is Some,
        ensures
            final(self)@.wf(),
            check_syscall(old(self)@, node@) == Some((final(self)@, res@)),
        decreases node, 1int,
    {
        match node {
            Node::Syscall { args, pos_start, pos_end } => {
                let mut res = ValidationResult::new();

                let (arg_nodes, stopped) = self.validate_seq(args, &mut res);
                if stopped {
                    return res;
                }

                res.success(
                    ValueType::U64(NumberType::new()),
                    Node::Syscall { args: arg_nodes, pos_start: pos_start.clone(), pos_end: pos_end.clone() },
                );
                res
            },
            _ => unreached(),
        }
    }

    fn validate_while_node(&mut self, node: &Node) -> (res: ValidationResult)
        requires
            old(self)@.wf(),
            node is While,
            check_while(old(self)@, node@) is Some,
        ensures
            final(self)@.wf(),
            check_while(old(self)@, node@) == Some((final(self)@, res@)),
        decreases node, 1int,
    {
        match node {
            Node::While(w) => {
                let mut res = ValidationResult::new();

                let (condition_type, condition_node) = res.register_res(self.validate(w.condition_node()));
                if res.has_error() {
                    return res;
                }

                match condition_type {
                    Some(ct) => {
                        if ct.value_type() != ValueTypes::Bool {
                            res.failure(error::semantic_error(node.pos_start(), node.pos_end(), "Condition must be of type bool!"));
                            return res;
                        }
                    },
                    None => {
                        return res;
                    },
                }

                self.push_child_scope(ScopeType::Loop);
                let (_, body_node) = res.register_res(self.validate(w.body_node()));
                self.pop_child_scope();

                if res.has_error() {
                    return res;
                }

                match (condition_node, body_node) {
                    (Some(cn), Some(bn)) => {
                        res.success(ValueType::Ignored(IgnoredType::new()), Node::While(WhileNode::new(cn, bn)));
                    },
                    _ => {},
                }
                res
            },
            _ => unreached(),
        }
    }

    fn validate_for_node(&mut self, node: &Node) -> (res: ValidationResult)
        requires
            old(self)@.wf(),
            node is For,
            check_for(old(self)@, node@) is Some,
        ensures
            final(self)@.wf(),
            check_for(old(self)@, node@) == Some((final(self)@, res@)),
        decreases node, 1int,
    {
        match node {
            Node::For { init, condition, next, body } => {
                let mut res = ValidationResult::new();

                self.push_child_scope(ScopeType::Block);

                let (_, init_stmt) = res.register_res(self.validate(init));
                if res.has_error() {
                    self.pop_child_scope();
                    return res;
                }

                let (condition_type, condition_node) = res.register_res(self.validate(condition));
                if res.has_error() {
                    self.pop_child_scope();
                    return res;
                }

                match condition_type {
                    Some(ct) => {
                        if ct.value_type() != ValueTypes::Bool {
                            res.failure(error::semantic_error(node.pos_start(), node.pos_end(), "Condition must be of type bool!"));
                            self.pop_child_scope();
                            return res;
                        }
                    },
                    None => {
                        return res;
                    },
                }

                let (_, next_expr) = res.register_res(self.validate(next));
                if res.has_error() {
                    self.pop_child_scope();
                    return res;
                }

                self.push_child_scope(ScopeType::Loop);

                let (_, body_node) = res.register_res(self.validate(body));

                self.pop_child_scope();
                self.pop_child_scope();

                if res.has_error() {
                    return res;
                }

                match (init_stmt, condition_node, next_expr, body_node) {
                    (Some(i), Some(c), Some(n), Some(b)) => {
                        res.success(
                            ValueType::Ignored(IgnoredType::new()),
                            Node::For { init: Box::new(i), condition: Box::new(c), next: Box::new(n), body: Box::new(b) },
                        );
                    },
                    _ => {},
                }
                res
            },
            _ => unreached(),
        }
    }

    fn validate_if_node(&mut self, node: &Node) -> (res: ValidationResult)
        requires
            old(self)@.wf(),
            node is If,
            check_if(old(self)@, node@) is Some,
        ensures
            final(self)@.wf(),
            check_if(old(self)@, node@) == Some((final(self)@, res@)),
        decreases node, 1int,
    {
        match node {
            Node::If { cases, else_case } => {
                let mut res = ValidationResult::new();

                let if_start = node.pos_start();
                let if_end = node.pos_end();
                let (new_cases, stopped) = self.validate_cases(cases, &if_start, &if_end, &mut res);
                if stopped {
                    return res;
                }

                match else_case {
                    None => {
                        res.success(ValueType::Ignored(IgnoredType::new()), Node::If { cases: new_cases, else_case: None });
                        res
                    },
                    Some(e) => {
                        self.push_child_scope(ScopeType::Block);
                        let (_, statements) = res.register_res(self.validate(e));
                        self.pop_child_scope();

                        if res.has_error() {
                            return res;
                        }

                        match statements {
                            Some(sn) => {
                                res.success(
                                    ValueType::Ignored(IgnoredType::new()),
                                    Node::If { cases: new_cases, else_case: Some(Box::new(sn)) },
                                );
                            },
                            None => {},
                        }
                        res
                    },
                }
            },
            _ => unreached(),
        }
    }

    fn validate_cast_node(&mut self, node: &Node) -> (res: ValidationResult)
        requires
            old(self)@.wf(),
            node is Cast,
            check_cast(old(self)@, node@) is Some,
        ensures
            final(self)@.wf(),
            check_cast(old(self)@, node@) == Some((final(self)@, res@)),
        decreases node, 1int,
    {
        match node {
            Node::Cast { node: inner, cast_type, pos_end } => {
                let mut res = ValidationResult::new();

                let (node_type, cast_node) = res.register_res(self.validate(inner));
                if res.has_error() {
                    return res;
                }

                let node_type = match node_type {
                    Some(t) => t,
                    None => {
                        return res;
                    },
                };

                if !node_type.is_valid_cast(cast_type) {
                    let m = message5("Invalid cast! Cannot cast from type '", node_type.to_string().as_str(), "' to type '", cast_type.to_string().as_str(), "'!");
                    res.failure(error::semantic_error(node.pos_start(), pos_end.clone(), m.as_str()));
                    return res;
                }

                match cast_node {
                    Some(cn) => {
                        res.success(
                            cast_type.box_clone(),
                            Node::Cast { node: Box::new(cn), cast_type: cast_type.box_clone(), pos_end: pos_end.clone() },
                        );
                    },
                    None => {},
                }
                res
            },
            _ => unreached(),
        }
    }

    fn validate_const_def_node(&mut self, node: &Node) -> (res: ValidationResult)
        requires
            old(self)@.wf(),
            node is ConstDef,
            check_const_def(old(self)@, node@) is Some,
        ensures
            final(self)@.wf(),
            check_const_def(old(self)@, node@) == Some((final(self)@, res@)),
        decreases node, 1int,
    {
        match node {
            Node::ConstDef { name, value, value_type, pos_start } => {
                let mut res = ValidationResult::new();

                let (assign_type, assign_node) = res.register_res(self.validate(value));
                if res.has_error() {
                    return res;
                }

                let assign_type = match assign_type {
                    Some(t) => t,
                    None => {
                        return res;
                    },
                };

                if !assign_type.eq(value_type) {
                    let m = message5("Type '", assign_type.to_string().as_str(), "' can't be assigned to type '", value_type.to_string().as_str(), "'!");
                    res.failure(error::semantic_error(pos_start.clone(), node.pos_end(), m.as_str()));
                    return res;
                }

                match assign_node {
                    Some(an) => {
                        self.declare_symbol(name.clone(), Symbol::new(assign_type, false), pos_start.clone());

                        res.success(
                            ValueType::Ignored(IgnoredType::new()),
                            Node::ConstDef {
                                name: name.clone(),
                                value: Box::new(an),
                                value_type: value_type.box_clone(),
                                pos_start: pos_start.clone(),
                            },
                        );
                    },
                    None => {},
                }
                res
            },
            _ => unreached(),
        }
    }

    /// The sum of the operand sizes of the fields.
    fn struct_size(fields: &Vec<(String, ValueType)>) -> (r: u8)
        requires
            fields_size(args_view(fields@)) is Some,
            fields_size(args_view(fields@))->0 <= 255,
        ensures
            r as nat == fields_size(args_view(fields@))->0,
    {
        let ghost av = args_view(fields@);
        let mut size: u8 = 0;
        let mut i: usize = 0;
        proof {
            lemma_fields_size_prefix(av, 0);
            assert(av.take(0) =~= Seq::<(Seq<char>, SpecType)>::empty());
        }
        while i < fields.len()
            invariant
                i <= fields@.len(),
                av == args_view(fields@),
                fields_size(av) is Some,
                fields_size(av)->0 <= 255,
                fields_size(av.take(i as int)) == Some(size as nat),
            decreases fields@.len() - i,
        {
            proof {
                lemma_take_last(av, i as int);
                lemma_fields_size_prefix(av, i as int + 1);
            }
            let z = fields[i].1.get_size().get_size_in_bytes();
            size = size + z;
            i = i + 1;
        }
        proof {
            assert(av.take(av.len() as int) =~= av);
        }
        size
    }

    fn validate_sizeof_node(&mut self, node: &Node) -> (res: ValidationResult)
        requires
            old(self)@.wf(),
            node is SizeOf,
            check_sizeof(old(self)@, node@) is Some,
        ensures
            final(self)@.wf(),
            check_sizeof(old(self)@, node@) == Some((final(self)@, res@)),
    {
        match node {
            Node::SizeOf { value_type, pos_start, pos_end } => {
                let mut res = ValidationResult::new();

                let mut size: u8 = value_type.get_size().get_size_in_bytes();
                match value_type {
                    ValueType::Struct(struct_type) => {
                        match self.find_struct(struct_type.name()) {
                            None => {
                                let m = message("Struct '", struct_type.name(), "' is not defined!");
                                res.failure(error::semantic_error(pos_start.clone(), pos_end.clone(), m.as_str()));
                                return res;
                            },
                            Some(fields) => {
                                size = Self::struct_size(fields);
                            },
                        }
                    },
                    _ => {},
                }

                res.success(
                    ValueType::U64(NumberType::new()),
                    Node::Number {
                        token: Token::new_with_value(TokenType::U64, usize_to_string(size as usize), pos_start.clone(), pos_end.clone()),
                        value_type: ValueType::U64(NumberType::new()),
                    },
                );
                res
            },
            _ => unreached(),
        }
    }

    fn validate_static_def_node(&mut self, node: &Node) -> (res: ValidationResult)
        requires
            old(self)@.wf(),
            node is StaticDef,
            check_static_def(old(self)@, node@) is Some,
        ensures
            final(self)@.wf(),
            check_static_def(old(self)@, node@) == Some((final(self)@, res@)),
        decreases node, 1int,
    {
        match node {
            Node::StaticDef { name, value_type, value, is_mutable, pos_start } => {
                let mut res = ValidationResult::new();

                let (assign_type, assign_node) = res.register_res(self.validate(value));
                if res.has_error() {
                    return res;
                }

                let assign_type = match assign_type {
                    Some(t) => t,
                    None => {
                        return res;
                    },
                };

                if !assign_type.eq(value_type) {
                    let m = message5("Type '", assign_type.to_string().as_str(), "' can't be assigned to type '", value_type.to_string().as_str(), "'!");
                    res.failure(error::semantic_error(pos_start.clone(), node.pos_end(), m.as_str()));
                    return res;
                }

                match assign_node {
                    Some(an) => {
                        self.declare_symbol(name.clone(), Symbol::new(assign_type.box_clone(), *is_mutable), pos_start.clone());

                        res.success(
                            assign_type,
                            Node::StaticDef {
                                name: name.clone(),
                                value_type: value_type.box_clone(),
                                value: Box::new(an),
                                is_mutable: *is_mutable,
                                pos_start: pos_start.clone(),
                            },
                        );
                    },
                    None => {},
                }
                res
            },
            _ => unreached(),
        }
    }

    fn validate_struct_def_node(&mut self, node: &Node) -> (res: ValidationResult)
        requires
            old(self)@.wf(),
            node is StructDef,
            check_struct_def(old(self)@, node@) is Some,
        ensures
            final(self)@.wf(),
            check_struct_def(old(self)@, node@) == Some((final(self)@, res@)),
    {
        match node {
            Node::StructDef { name, fields, pos_start, pos_end } => {
                let mut res = ValidationResult::new();

                if self.find_struct(name.as_str()).is_some() {
                    let m = message("Structure with the name '", name.as_str(), "' was already defined!");
                    res.failure(error::semantic_error(pos_start.clone(), pos_end.clone(), m.as_str()));
                    return res;
                }

                let ghost old_view = self@;
                self.structs.push((name.clone(), crate::nodes::clone_args(fields)));
                proof {
                    assert(self@.structs =~= old_view.structs.push((name@, args_view(fields@))));
                    assert(self@.scopes =~= old_view.scopes);
                }

                res.success(ValueType::Ignored(IgnoredType::new()), node.box_clone());
                res
            },
            _ => unreached(),
        }
    }

    fn validate_read_bytes_node(&mut self, node: &Node) -> (res: ValidationResult)
        requires
            old(self)@.wf(),
            node is ReadBytes,
            check_read_bytes(old(self)@, node@) is Some,
        ensures
            final(self)@.wf(),
            check_read_bytes(old(self)@, node@) == Some((final(self)@, res@)),
        decreases node, 1int,
    {
        match node {
            Node::ReadBytes { node: inner, bytes, pos_end } => {
                let mut res = ValidationResult::new();

                let (node_type, value_node) = res.register_res(self.validate(inner));
                if res.has_error() {
                    return res;
                }

                match node_type {
                    Some(ValueType::Pointer(p)) => {
                        match value_node {
                            Some(vn) => {
                                res.success(
                                    p.pointee_type().box_clone(),
                                    Node::ReadBytes { node: Box::new(vn), bytes: *bytes, pos_end: pos_end.clone() },
                                );
                            },
                            None => {},
                        }
                        res
                    },
                    Some(_) => {
                        res.failure(error::semantic_error(node.pos_start(), pos_end.clone(), "Can't read bytes from non-pointer type!"));
                        res
                    },
                    None => res,
                }
            },
            _ => unreached(),
        }
    }

    fn validate_dereference_node(&mut self, node: &Node) -> (res: ValidationResult)
        requires
            old(self)@.wf(),
            node is Dereference,
            check_dereference(old(self)@, node@) is Some,
        ensures
            final(self)@.wf(),
            check_dereference(old(self)@, node@) == Some((final(self)@, res@)),
        decreases node, 1int,
    {
        match node {
            Node::Dereference { node: inner } => {
                let mut res = ValidationResult::new();

                let (node_type, value_node) = res.register_res(self.validate(inner));
                if res.has_error() {
                    return res;
                }

                match node_type {
                    Some(ValueType::Pointer(p)) => {
                        let pointee_type_size = p.pointee_type().get_size();
                        match value_node {
                            Some(vn) => {
                                res.success(
                                    p.pointee_type().box_clone(),
                                    Node::ReadBytes { node: Box::new(vn), bytes: pointee_type_size, pos_end: inner.pos_end() },
                                );
                            },
                            None => {},
                        }
                        res
                    },
                    Some(_) => {
                        res.failure(error::semantic_error(node.pos_start(), node.pos_end(), "Can't dereference non-pointer type!"));
                        res
                    },
                    None => res,
                }
            },
            _ => unreached(),
        }
    }

    fn validate_import_node(&mut self, node: &Node) -> (res: ValidationResult)
        requires
            old(self)@.wf(),
            node is Import,
            check_import(old(self)@, node@) is Some,
        ensures
            final(self)@.wf(),
            check_import(old(self)@, node@) == Some((final(self)@, res@)),
        decreases node, 1int,
    {
        match node {
            Node::Import { node: inner } => {
                let mut res = ValidationResult::new();

                match &**inner {
                    Node::Statements { statements, pos_start, pos_end } => {
                        proof {
                            assert(decreases_to!(node => **inner));
                            assert(node@ == SpecNode::Import { node: Box::new(inner@) });
                            assert(inner@ == SpecNode::Statements {
                                statements: nodes_view(statements@),
                                pos_start: pos_start@,
                                pos_end: pos_end@,
                            });
                        }
                        let (stmts, stopped) = self.validate_seq(statements, &mut res);
                        if stopped {
                            return res;
                        }

                        let ghost sv = nodes_view(stmts@);
                        let body = Node::Statements { statements: stmts, pos_start: pos_start.clone(), pos_end: pos_end.clone() };
                        proof {
                            assert(body@ == SpecNode::Statements { statements: sv, pos_start: pos_start@, pos_end: pos_end@ });
                        }
                        let new_node = Node::Import { node: Box::new(body) };
                        proof {
                            assert(new_node@ == SpecNode::Import {
                                node: Box::new(SpecNode::Statements { statements: sv, pos_start: pos_start@, pos_end: pos_end@ }),
                            });
                        }
                        res.success(ValueType::Ignored(IgnoredType::new()), new_node);
                        res
                    },
                    _ => {
                        proof {
                            assert(node@ == SpecNode::Import { node: Box::new(inner@) });
                            assert(!(inner@ is Statements));
                        }
                        unreached()
                    },
                }
            },
            _ => unreached(),
        }
    }

    fn validate_macro_def_node(&mut self, node: &Node) -> (res: ValidationResult)
        requires
            old(self)@.wf(),
            node is MacroDef,
            spec_validate(old(self)@, node@) is Some,
        ensures
            final(self)@.wf(),
            spec_validate(old(self)@, node@) == Some((final(self)@, res@)),
    {
        match node {
            Node::MacroDef { .. } => {
                let mut res = ValidationResult::new();

                res.success(ValueType::Ignored(IgnoredType::new()), node.box_clone());
                res
            },
            _ => unreached(),
        }
    }

    fn validate_ignored_node(&mut self, node: &Node) -> (res: ValidationResult)
        requires
            old(self)@.wf(),
            node is Ignored,
            spec_validate(old(self)@, node@) is Some,
        ensures
            final(self)@.wf(),
            spec_validate(old(self)@, node@) == Some((final(self)@, res@)),
    {
        match node {
            Node::Ignored { .. } => {
                let mut res = ValidationResult::new();

                res.success(ValueType::Ignored(IgnoredType::new()), node.box_clone());
                res
            },
            _ => unreached(),
        }
    }

    /// The place of the first field called `name` and its offset, the sum of
    /// the sizes of the fields before it.
    fn find_field(fields: &Vec<(String, ValueType)>, name: &str) -> (r: Option<(usize, usize)>)
        requires
            field_offset(args_view(fields@), name@, 0, 0) is Some,
        ensures
            match r {
                Some((k, offset)) => k < fields@.len() && field_offset(args_view(fields@), name@, 0, 0) == Some(
                    Some((offset as nat, fields@[k as int].1@)),
                ),
                None => field_offset(args_view(fields@), name@, 0, 0) == Some(None::<(nat, SpecType)>),
            },
    {
        let ghost av = args_view(fields@);
        let mut offset: usize = 0;
        let mut i: usize = 0;
        while i < fields.len()
            invariant
                i <= fields@.len(),
                av == args_view(fields@),
                field_offset(av, name@, i as int, offset as nat) == field_offset(av, name@, 0, 0),
                field_offset(av, name@, 0, 0) is Some,
            decreases fields@.len() - i,
        {
            if crate::text::str_eq(fields[i].0.as_str(), name) {
                return Some((i, offset));
            }

            offset = offset + fields[i].1.get_size().get_size_in_bytes() as usize;
            i = i + 1;
        }
        None
    }

    fn validate_accessor_node(&mut self, node: &Node) -> (res: ValidationResult)
        requires
            old(self)@.wf(),
            node is Accessor,
            check_accessor(old(self)@, node@) is Some,
        ensures
            final(self)@.wf(),
            check_accessor(old(self)@, node@) == Some((final(self)@, res@)),
        decreases node, 1int,
    {
        match node {
            Node::Accessor { node: inner, accessor, pos_end } => {
                let mut res = ValidationResult::new();

                let (node_type, value_node) = res.register_res(self.validate(inner));
                if res.has_error() {
                    return res;
                }

                match node_type {
                    Some(t) => {
                        self.access_field(&mut res, &t, value_node, accessor.as_str(), node.pos_start(), pos_end);
                    },
                    None => {},
                }
                res
            },
            _ => unreached(),
        }
    }

    /// The field access itself, once the accessed value has been checked
    /// and found to be of type `node_type`.
    fn access_field(
        &self,
        res: &mut ValidationResult,
        node_type: &ValueType,
        value_node: Option<Node>,
        accessor: &str,
        pos_start: Position,
        pos_end: &Position,
    )
        requires
            v_accessor(self@, old(res)@, node_type@, opt_node_view(value_node), accessor@, pos_start@, pos_end@) is Some,
        ensures
            v_accessor(self@, old(res)@, node_type@, opt_node_view(value_node), accessor@, pos_start@, pos_end@) == Some(final(res)@),
    {
        let ghost t = node_type@;
        let (struct_name, is_mutable) = match node_type {
            ValueType::Pointer(p) => {
                let pt = p.pointee_type();
                proof {
                    assert(t == SpecType::Pointer { pointee: Box::new(pt@), is_mutable: p.is_mutable });
                }
                match pt {
                    ValueType::Struct(s) => {
                        proof {
                            assert(pt@ == SpecType::Struct { name: s.name@ });
                        }
                        (s.name(), *p.is_mutable())
                    },
                    _ => {
                        proof {
                            assert(!(pt@ is Struct));
                        }
                        res.failure(error::semantic_error(pos_start, pos_end.clone(), "Can't access fields of non-pointer-to-struct type!"));
                        return;
                    },
                }
            },
            _ => {
                proof {
                    assert(!(t is Pointer));
                }
                res.failure(error::semantic_error(pos_start, pos_end.clone(), "Can't access fields of non-pointer-to-struct type!"));
                return;
            },
        };

        let fields = match self.find_struct(struct_name) {
            Some(f) => f,
            None => {
                let m = message("Structure with the name '", struct_name, "' was not defined!");
                res.failure(error::semantic_error(pos_start, pos_end.clone(), m.as_str()));
                return;
            },
        };

        let (k, offset) = match Self::find_field(fields, accessor) {
            Some(found) => found,
            None => {
                let m = message5("Field '", accessor, "' was not found in structure '", struct_name, "'!");
                res.failure(error::semantic_error(pos_start, pos_end.clone(), m.as_str()));
                return;
            },
        };

        match value_node {
            Some(vn) => {
                let offset_node = Node::Number {
                    token: Token::new_with_value(TokenType::U64, usize_to_string(offset), Position::empty(), Position::empty()),
                    value_type: ValueType::U64(NumberType::new()),
                };
                proof {
                    assert(offset_node@ == SpecNode::Number {
                        token: number_token(crate::text::decimal(offset as nat), empty_pos(), empty_pos()),
                        value_type: SpecType::U64,
                    });
                }
                let ghost vn_view = vn@;
                let new_node = Node::BinOp {
                    left: Box::new(vn),
                    op: Token::new_without_value(TokenType::Plus, Position::empty(), Position::empty()),
                    right: Box::new(offset_node),
                };
                proof {
                    assert(new_node@ == SpecNode::BinOp {
                        left: Box::new(vn_view),
                        op: SpecToken {
                            tok_type: TokenType::Plus,
                            tok_value: None,
                            pos_start: empty_pos(),
                            pos_end: empty_pos(),
                            flags: 0,
                        },
                        right: Box::new(SpecNode::Number {
                            token: number_token(crate::text::decimal(offset as nat), empty_pos(), empty_pos()),
                            value_type: SpecType::U64,
                        }),
                    });
                }
                res.success(ValueType::Pointer(PointerType::new(fields[k].1.box_clone(), is_mutable)), new_node);
            },
            None => {},
        }
    }

}

/// Every prefix of fields whose sizes add up has sizes that add up to no
/// more.
proof fn lemma_fields_size_prefix(s: Seq<(Seq<char>, SpecType)>, j: int)
    requires
        fields_size(s) is Some,
        0 <= j <= s.len(),
    ensures
        fields_size(s.take(j)) is Some,
        fields_size(s.take(j))->0 <= fields_size(s)->0,
    decreases s.len(),
{
    if j == s.len() {
        assert(s.take(j) =~= s);
    } else {
        lemma_fields_size_prefix(s.drop_last(), j);
        assert(s.drop_last().take(j) =~= s.take(j));
    }
}

} // verus!
