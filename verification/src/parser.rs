//! The recursive-descent parser: from tokens to the syntax tree.
//!
//! Each parsing function is proved to compute what the function of the same
//! name in `rules` says, from the same tokens and state.
pub mod rules;

use vstd::prelude::*;
use crate::error;
use crate::error::{Error, SpecError};
use crate::nodes::{Node, SpecNode, nodes_view, cases_view, args_view, lemma_nodes_view_push, lemma_cases_view_push};
use crate::position::Position;
use crate::results::parse::ParseResult;
use crate::token::{Token, TokenType, SpecToken, TOKEN_FLAGS_IS_ASSIGN};
use crate::values::value_size::ValueSize;
use crate::values::value_type::{ValueType, SpecType};
use crate::values::value_type::number_type::NumberType;
use crate::values::value_type::u32_type::U32Type;
use crate::values::value_type::u16_type::U16Type;
use crate::values::value_type::u8_type::U8Type;
use crate::values::value_type::string_type::StringType;
use crate::values::value_type::bool_type::BoolType;
use crate::values::value_type::char_type::CharType;
use crate::values::value_type::void_type::VoidType;
use crate::values::value_type::pointer_type::PointerType;
use crate::values::value_type::struct_type::StructType;
use crate::nodes::while_node::WhileNode;
use crate::nodes::var_node::declare::VarDeclarationNode;
use crate::nodes::var_node::access::VarAccessNode;
use crate::nodes::var::assign::VarAssignNode;
use crate::text::{str_eq, string_of, concat3, parse_u64};
use rules::{
    PCtx, PState, BinOpFunction, rd, tk, ty, kw, adv, fail, succ, mono, step, find_macro, find_macro_from,
    syntax_err, expect_err, keyword_err, wrap_err,
    macro_insert, find_module_from, has_arg, intrinsic_base, comp_ops, is_assign_op, size_of_bytes,
    skip_newlines, p_ptrs, p_type, p_fn_args, p_struct_fields, p_stmt_struct, p_stmt_asm, p_parse,
    p_statements, p_stmts_loop, p_statement, p_stmt_const, p_stmt_import, p_stmt_macro, p_stmt_static,
    p_stmt_return, p_expression, p_expr_let, p_expr_syscall, p_syscall_rest, p_eval, p_bin, p_bin_loop,
    p_comp, p_arith, p_term, p_factor, p_call, p_call_args, p_args_loop, p_postfix, p_atom, p_sizeof,
    p_atom_ident, p_list_expr, p_list_sized, p_list_elems, p_while, p_for, p_if, p_if_loop,
    p_function_def, p_fn_rest, lemma_skip_newlines, lemma_find_module, find_place, file_id, same_file,
    imported_before, lemma_find_place,
};
use crate::paths::{locations, search_places, texts};

verus! {

/// Each token as a value.
pub open spec fn tokens_view(s: Seq<Token>) -> Seq<SpecToken> {
    Seq::new(s.len(), |i: int| s[i]@)
}

/// Each macro as a pair of its name and its body.
pub open spec fn macros_view(s: Seq<(String, Node)>) -> Seq<(Seq<char>, SpecNode)> {
    Seq::new(s.len(), |i: int| (s[i].0@, s[i].1@))
}

/// Each string as its characters.
pub open spec fn strings_view(s: Seq<String>) -> Seq<Seq<char>> {
    Seq::new(s.len(), |i: int| s[i]@)
}

/// Each pair of strings as a pair of their characters.
pub open spec fn pairs_view(s: Seq<(String, String)>) -> Seq<(Seq<char>, Seq<char>)> {
    Seq::new(s.len(), |i: int| (s[i].0@, s[i].1@))
}

/// Each module as its path and its tokens.
pub open spec fn modules_view(s: Seq<(String, Vec<Token>)>) -> Seq<(Seq<char>, Seq<SpecToken>)> {
    Seq::new(s.len(), |i: int| (s[i].0@, tokens_view(s[i].1@)))
}

/// What a parsing function gave: its node, or its error.
pub open spec fn pres(r: ParseResult) -> Result<SpecNode, SpecError> {
    match r@.error {
        Some(e) => Err(e@),
        None => match r@.node {
            Some(n) => Ok(n@),
            None => Err(arbitrary()),
        },
    }
}

/// A result without an error has a node, and nothing is to be reversed.
pub open spec fn pres_ok(r: ParseResult) -> bool {
    &&& r@.to_reverse_count == 0
    &&& r@.error is None ==> r@.node is Some
}

/// A parser: the tokens it reads, the index of the current one, the macros
/// defined and the paths of the modules imported so far, the directories
/// searched for modules, the files that can be imported, each by its path
/// and with its tokens, and the identity of the file at each path.
pub struct Parser {
    pub tokens: Vec<Token>,
    pub token_index: usize,
    pub macros: Vec<(String, Node)>,
    pub already_included: Vec<String>,
    pub include_paths: Vec<String>,
    pub modules: Vec<(String, Vec<Token>)>,
    pub file_ids: Vec<(String, String)>,
}

/// `after` reads the same input as `before`, is not behind it, and is
/// within its tokens.
pub open spec fn steps(before: Parser, after: Parser) -> bool {
    &&& after.token_index <= after.tokens@.len()
    &&& after.tokens == before.tokens
    &&& after.modules == before.modules
    &&& after.include_paths == before.include_paths
    &&& after.file_ids == before.file_ids
    &&& before.token_index <= after.token_index
}

/// The message for a missing token.
fn expected_token_message(repr: &str, t: TokenType) -> (r: String)
    ensures
        r@ == "Expected token '"@ + repr@ + "' of type '"@ + t.spec_name() + "'!"@,
{
    let mut m = concat3("Expected token '", repr, "' of type '");
    m.append(t.name());
    m.append("'!");
    m
}

/// The message for a missing keyword.
fn expected_keyword_message(k: &str) -> (r: String)
    ensures
        r@ == "Expected keyword '"@ + k@ + "'!"@,
{
    concat3("Expected keyword '", k, "'!")
}

/// The type that a type node carries.
fn carried(n: Node) -> (r: ValueType)
    requires
        n is TypeCarrier,
    ensures
        n@ == (SpecNode::TypeCarrier { carried_type: r@ }),
{
    match n {
        Node::TypeCarrier { carried_type } => carried_type,
        _ => unreached(),
    }
}

impl Parser {
    /// The tokens and modules the parser reads.
    pub open spec fn ctx(&self) -> PCtx {
        PCtx {
            tokens: tokens_view(self.tokens@),
            modules: modules_view(self.modules@),
            include_paths: strings_view(self.include_paths@),
            file_ids: pairs_view(self.file_ids@),
        }
    }

    /// Where the parser is.
    pub open spec fn state(&self) -> PState {
        PState {
            idx: self.token_index as int,
            macros: macros_view(self.macros@),
            included: strings_view(self.already_included@),
        }
    }

    /// The current token; it must exist.
    fn cur(&self) -> (r: &Token)
        requires
            self.token_index < self.tokens@.len(),
        ensures
            *r == self.tokens@[self.token_index as int],
            r@ == tk(self.ctx(), self.state()),
    {
        &self.tokens[self.token_index]
    }

    /// Moves to the next token and counts it in `res`.
    fn advance(&mut self, res: &mut ParseResult)
        requires
            old(self).token_index < old(self).tokens@.len(),
        ensures
            *final(self) == (Parser { token_index: (old(self).token_index + 1) as usize, ..*old(self) }),
            final(self).state() == adv(old(self).state()),
            final(res)@.error == old(res)@.error,
            final(res)@.node == old(res)@.node,
            final(res)@.to_reverse_count == old(res)@.to_reverse_count,
    {
        let n = self.tokens.len();
        proof {
            assert(self.token_index < n);
        }
        self.token_index = self.token_index + 1;
        res.register_advancement();
    }

    /// Records a syntax error at the current token.
    fn fail_here(&self, res: &mut ParseResult, details: &str)
        requires
            self.token_index < self.tokens@.len(),
        ensures
            final(res)@.error is Some,
            final(res)@.error->0@ == syntax_err(self.ctx(), self.state(), details@),
            final(res)@.node == old(res)@.node,
            final(res)@.to_reverse_count == old(res)@.to_reverse_count,
    {
        let t = self.cur();
        res.failure(error::invalid_syntax_error(t.pos_start().clone(), t.pos_end().clone(), details));
    }

    /// Whether the current token has the type `t`; records an error where
    /// it has not.
    fn expect(&self, res: &mut ParseResult, t: TokenType, repr: &str) -> (ok: bool)
        requires
            self.token_index < self.tokens@.len(),
        ensures
            ok == (ty(self.ctx(), self.state()) == t),
            ok ==> *final(res) == *old(res),
            !ok ==> final(res)@.error is Some && final(res)@.node == old(res)@.node
                && final(res)@.to_reverse_count == old(res)@.to_reverse_count,
            !ok ==> final(res)@.error->0@ == expect_err(self.ctx(), self.state(), repr@, t),
    {
        if self.cur().token_type() != t {
            let m = expected_token_message(repr, t);
            self.fail_here(res, m.as_str());
            false
        } else {
            true
        }
    }

    /// Whether the current token is the keyword `k`; records an error where
    /// it is not.
    fn expect_keyword(&self, res: &mut ParseResult, k: &str) -> (ok: bool)
        requires
            self.token_index < self.tokens@.len(),
        ensures
            ok == kw(self.ctx(), self.state(), k@),
            ok ==> *final(res) == *old(res),
            !ok ==> final(res)@.error is Some && final(res)@.node == old(res)@.node
                && final(res)@.to_reverse_count == old(res)@.to_reverse_count,
            !ok ==> final(res)@.error->0@ == keyword_err(self.ctx(), self.state(), k@),
    {
        if !self.cur().matches_keyword(k) {
            let m = expected_keyword_message(k);
            self.fail_here(res, m.as_str());
            false
        } else {
            true
        }
    }

    /// The value of the current token; the token must have one.
    fn cur_value(&self) -> (r: String)
        requires
            self.token_index < self.tokens@.len(),
            tk(self.ctx(), self.state()).tok_value is Some,
        ensures
            r@ == tk(self.ctx(), self.state()).tok_value->0,
    {
        match self.cur().token_value() {
            Some(v) => v.clone(),
            None => unreached(),
        }
    }

    /// A type: a type keyword, or `struct` and a name, then pointer stars.
    fn parse_intrinsic_type(&mut self) -> (res: ParseResult)
        requires
            old(self).token_index <= old(self).tokens@.len(),
            p_type(old(self).ctx(), old(self).state()) is Some,
        ensures
            steps(*old(self), *final(self)),
            final(self).macros == old(self).macros,
            final(self).already_included == old(self).already_included,
            p_type(old(self).ctx(), old(self).state()) == Some((final(self).state(), pres(res))),
            pres_ok(res),
    {
        let mut res = ParseResult::new();
        let ghost c = self.ctx();
        let ghost s0 = self.state();

        if !self.expect(&mut res, TokenType::Keyword, "intrinsic type") {
            return res;
        }

        let v = self.cur_value();
        let base_type: ValueType;
        if str_eq(v.as_str(), "struct") {
            self.advance(&mut res);

            if !self.expect(&mut res, TokenType::Identifier, "struct name") {
                return res;
            }

            let struct_name = self.cur_value();
            base_type = ValueType::Struct(StructType::new(struct_name));
        } else if str_eq(v.as_str(), "u64") {
            base_type = ValueType::U64(NumberType::new());
        } else if str_eq(v.as_str(), "u32") {
            base_type = ValueType::U32(U32Type::new());
        } else if str_eq(v.as_str(), "u16") {
            base_type = ValueType::U16(U16Type::new());
        } else if str_eq(v.as_str(), "u8") {
            base_type = ValueType::U8(U8Type::new());
        } else if str_eq(v.as_str(), "string") {
            base_type = ValueType::String(StringType::new());
        } else if str_eq(v.as_str(), "bool") {
            base_type = ValueType::Bool(BoolType::new());
        } else if str_eq(v.as_str(), "char") {
            base_type = ValueType::Char(CharType::new());
        } else if str_eq(v.as_str(), "void") {
            base_type = ValueType::Void(VoidType::new());
        } else {
            self.fail_here(&mut res, "Expected intrinsic type!");
            return res;
        }

        self.advance(&mut res);

        let mut final_type = base_type;
        while self.cur().token_type() == TokenType::Mul
            invariant
                steps(*old(self), *self),
                self.macros == old(self).macros,
                self.already_included == old(self).already_included,
                c == self.ctx(),
                p_type(c, s0) == p_ptrs(c, self.state(), final_type@),
                p_type(c, s0) is Some,
                res@.error is None,
                res@.node is None,
                res@.to_reverse_count == 0,
            decreases self.tokens@.len() - self.token_index,
        {
            self.advance(&mut res);

            if self.cur().matches_keyword("mut") {
                self.advance(&mut res);
                final_type = ValueType::Pointer(PointerType::new(final_type, true));
            } else {
                final_type = ValueType::Pointer(PointerType::new(final_type, false));
            }
        }

        res.success(Node::TypeCarrier { carried_type: final_type });
        res
    }

    /// The arguments of a function definition, from the name of the first
    /// one; `None` where they have a syntax error, which `res` then holds.
    fn function_args(&mut self, res: &mut ParseResult) -> (r: Option<Vec<(String, ValueType)>>)
        requires
            old(self).token_index <= old(self).tokens@.len(),
            p_fn_args(old(self).ctx(), old(self).state(), Seq::empty()) is Some,
            old(res)@.error is None,
            old(res)@.to_reverse_count == 0,
        ensures
            steps(*old(self), *final(self)),
            final(self).macros == old(self).macros,
            final(self).already_included == old(self).already_included,
            p_fn_args(old(self).ctx(), old(self).state(), Seq::empty()) == Some((
                final(self).state(),
                match r {
                    Some(v) => Ok(args_view(v@)),
                    None => Err(final(res)@.error->0@),
                },
            )),
            (r is None) == (final(res)@.error is Some),
            final(res)@.node == old(res)@.node,
            final(res)@.to_reverse_count == 0,
    {
        let ghost c = self.ctx();
        let ghost s0 = self.state();
        let mut args: Vec<(String, ValueType)> = Vec::new();
        proof {
            assert(args_view(args@) =~= Seq::<(Seq<char>, SpecType)>::empty());
        }
        loop
            invariant
                steps(*old(self), *self),
                self.macros == old(self).macros,
                self.already_included == old(self).already_included,
                c == self.ctx(),
                c == old(self).ctx(),
                s0 == old(self).state(),
                p_fn_args(c, s0, Seq::empty()) == p_fn_args(c, self.state(), args_view(args@)),
                p_fn_args(c, s0, Seq::empty()) is Some,
                res@.error is None,
                res@.node == old(res)@.node,
                res@.to_reverse_count == 0,
            decreases self.tokens@.len() - self.token_index,
        {
            if self.cur().token_value().is_none() {
                self.fail_here(res, "Expected token to have value!");
                return None;
            }

            let arg_name = self.cur_value();
            if has_arg_named(&args, arg_name.as_str()) {
                let m = concat3("Argument name '", arg_name.as_str(), "' was already declared!");
                self.fail_here(res, m.as_str());
                return None;
            }

            self.advance(res);

            if !self.expect(res, TokenType::Colon, ":") {
                return None;
            }

            self.advance(res);

            if !self.expect(res, TokenType::Keyword, "type") {
                return None;
            }

            let ghost s2 = self.state();
            let tc = res.register_res(self.parse_intrinsic_type());
            if res.has_error() {
                return None;
            }
            let arg_type = match tc {
                Some(n) => carried(n),
                None => unreached(),
            };

            let ghost old_args = args@;
            args.push((arg_name, arg_type));
            proof {
                assert(args_view(args@) =~= args_view(old_args).push((arg_name@, arg_type@)));
            }

            if self.cur().token_type() == TokenType::Comma {
                self.advance(res);
            } else {
                return Some(args);
            }
        }
    }

    /// `struct name { field: type, ... }`, from the keyword.
    fn statement_struct(&mut self, pos_start: Position) -> (res: ParseResult)
        requires
            old(self).token_index <= old(self).tokens@.len(),
            p_stmt_struct(old(self).ctx(), old(self).state(), pos_start@) is Some,
        ensures
            steps(*old(self), *final(self)),
            final(self).macros == old(self).macros,
            final(self).already_included == old(self).already_included,
            p_stmt_struct(old(self).ctx(), old(self).state(), pos_start@) == Some((final(self).state(), pres(res))),
            pres_ok(res),
    {
        let mut res = ParseResult::new();
        let ghost c = self.ctx();
        let ghost s0 = self.state();

        self.advance(&mut res);

        if !self.expect(&mut res, TokenType::Identifier, "name of structure") {
            return res;
        }

        let name = self.cur_value();

        self.advance(&mut res);

        if !self.expect(&mut res, TokenType::Lcurly, "{") {
            return res;
        }

        self.advance(&mut res);

        let mut fields: Vec<(String, ValueType)> = Vec::new();
        proof {
            assert(args_view(fields@) =~= Seq::<(Seq<char>, SpecType)>::empty());
        }
        loop
            invariant
                steps(*old(self), *self),
                self.macros == old(self).macros,
                self.already_included == old(self).already_included,
                c == self.ctx(),
                c == old(self).ctx(),
                s0 == old(self).state(),
                p_stmt_struct(c, s0, pos_start@) == p_struct_fields(c, self.state(), args_view(fields@), name@, pos_start@),
                p_stmt_struct(c, s0, pos_start@) is Some,
                res@.error is None,
                res@.node is None,
                res@.to_reverse_count == 0,
            decreases self.tokens@.len() - self.token_index,
        {
            if !self.expect(&mut res, TokenType::Identifier, "name of field") {
                return res;
            }

            let field_name = self.cur_value();

            self.advance(&mut res);

            if !self.expect(&mut res, TokenType::Colon, ":") {
                return res;
            }

            self.advance(&mut res);

            let tc = res.register_res(self.parse_intrinsic_type());
            if res.has_error() {
                return res;
            }
            let field_type = match tc {
                Some(n) => carried(n),
                None => unreached(),
            };

            let ghost old_fields = fields@;
            fields.push((field_name, field_type));
            proof {
                assert(args_view(fields@) =~= args_view(old_fields).push((field_name@, field_type@)));
            }

            if self.cur().token_type() != TokenType::Comma {
                if !self.expect(&mut res, TokenType::Rcurly, "}") {
                    return res;
                }

                self.advance(&mut res);

                let pos_end = self.cur().pos_end().clone();
                res.success(Node::StructDef { name, fields, pos_start, pos_end });
                return res;
            }

            self.advance(&mut res);
        }
    }

    /// `asm [ "code" ]`, from the keyword.
    fn statement_asm(&mut self, pos_start: Position) -> (res: ParseResult)
        requires
            old(self).token_index <= old(self).tokens@.len(),
            p_stmt_asm(old(self).ctx(), old(self).state(), pos_start@) is Some,
        ensures
            steps(*old(self), *final(self)),
            final(self).macros == old(self).macros,
            final(self).already_included == old(self).already_included,
            p_stmt_asm(old(self).ctx(), old(self).state(), pos_start@) == Some((final(self).state(), pres(res))),
            pres_ok(res),
    {
        let mut res = ParseResult::new();

        self.advance(&mut res);

        if !self.expect(&mut res, TokenType::Lsquare, "[") {
            return res;
        }

        self.advance(&mut res);

        if !self.expect(&mut res, TokenType::String, "assembly code") {
            return res;
        }

        let asm_str = self.cur_value();

        self.advance(&mut res);

        if !self.expect(&mut res, TokenType::Rsquare, "]") {
            return res;
        }

        self.advance(&mut res);

        let pos_end = self.cur().pos_end().clone();
        res.success(Node::Assembly { code: asm_str, pos_start, pos_end });
        res
    }

    /// `sizeof [type]`, from the keyword.
    fn sizeof_expr(&mut self) -> (res: ParseResult)
        requires
            old(self).token_index <= old(self).tokens@.len(),
            p_sizeof(old(self).ctx(), old(self).state()) is Some,
        ensures
            steps(*old(self), *final(self)),
            final(self).macros == old(self).macros,
            final(self).already_included == old(self).already_included,
            p_sizeof(old(self).ctx(), old(self).state()) == Some((final(self).state(), pres(res))),
            pres_ok(res),
    {
        let mut res = ParseResult::new();
        let pos_start = self.cur().pos_start().clone();

        self.advance(&mut res);

        if !self.expect(&mut res, TokenType::Lsquare, "[") {
            return res;
        }

        self.advance(&mut res);

        let tc = res.register_res(self.parse_intrinsic_type());
        if res.has_error() {
            return res;
        }
        let in_type = match tc {
            Some(n) => carried(n),
            None => unreached(),
        };

        if !self.expect(&mut res, TokenType::Rsquare, "]") {
            return res;
        }

        self.advance(&mut res);

        let pos_end = self.cur().pos_end().clone();
        res.success(Node::SizeOf { value_type: in_type, pos_start, pos_end });
        res
    }

    /// The size of a list of a given size, and the `]`.
    fn list_sized(&mut self, element_type: ValueType, pos_start: Position) -> (res: ParseResult)
        requires
            old(self).token_index <= old(self).tokens@.len(),
            p_list_sized(old(self).ctx(), old(self).state(), element_type@, pos_start@) is Some,
        ensures
            steps(*old(self), *final(self)),
            final(self).macros == old(self).macros,
            final(self).already_included == old(self).already_included,
            p_list_sized(old(self).ctx(), old(self).state(), element_type@, pos_start@) == Some((final(self).state(), pres(res))),
            pres_ok(res),
    {
        let mut res = ParseResult::new();

        if !self.expect(&mut res, TokenType::U64, "size") {
            return res;
        }

        let v = self.cur_value();
        let length: usize = match parse_u64(v.as_str()) {
            Some(l) => {
                if l > usize::MAX as u64 {
                    return unreached();
                }
                l as usize
            },
            None => unreached(),
        };

        self.advance(&mut res);

        if !self.expect(&mut res, TokenType::Rsquare, "]") {
            return res;
        }

        self.advance(&mut res);

        let pos_end = self.cur().pos_end().clone();
        res.success(Node::List { length, elements: Vec::new(), is_literal: false, element_type, pos_start, pos_end });
        proof {
            assert(nodes_view(Seq::<Node>::empty()) =~= Seq::<SpecNode>::empty());
        }
        res
    }

    /// Replaces the error in `res` by one at the current token that names
    /// it as its cause.
    fn wrap_error(&self, res: &mut ParseResult, details: &str)
        requires
            self.token_index < self.tokens@.len(),
            old(res)@.error is Some,
        ensures
            final(res)@.error is Some,
            final(res)@.error->0@ == wrap_err(self.ctx(), self.state(), details@, old(res)@.error->0@),
            final(res)@.node == old(res)@.node,
            final(res)@.to_reverse_count == old(res)@.to_reverse_count,
    {
        let parent = match res.error() {
            Some(e) => e.clone(),
            None => unreached(),
        };
        let t = self.cur();
        res.failure(error::invalid_syntax_error_with_parent(t.pos_start().clone(), t.pos_end().clone(), details, parent));
    }

    /// Moves back by `amount` tokens.
    fn reverse(&mut self, amount: usize)
        requires
            amount <= old(self).token_index,
        ensures
            *final(self) == (Parser { token_index: (old(self).token_index - amount) as usize, ..*old(self) }),
    {
        self.token_index = self.token_index - amount;
    }

    /// The place of the first macro called `name`.
    fn find_macro(&self, name: &str) -> (r: Option<usize>)
        ensures
            match r {
                Some(i) => i < self.macros@.len() && find_macro(macros_view(self.macros@), name@) == Some(i as int),
                None => find_macro(macros_view(self.macros@), name@) is None,
            },
    {
        let ghost mv = macros_view(self.macros@);
        let mut i: usize = 0;
        while i < self.macros.len()
            invariant
                i <= self.macros@.len(),
                mv == macros_view(self.macros@),
                find_macro_from(mv, name@, 0) == find_macro_from(mv, name@, i as int),
            decreases self.macros@.len() - i,
        {
            if str_eq(self.macros[i].0.as_str(), name) {
                return Some(i);
            }
            i = i + 1;
        }
        None
    }

    /// Defines the macro `name`, replacing an earlier definition.
    fn insert_macro(&mut self, name: String, body: Node)
        ensures
            *final(self) == (Parser { macros: final(self).macros, ..*old(self) }),
            macros_view(final(self).macros@) == macro_insert(macros_view(old(self).macros@), name@, body@),
    {
        let ghost mv = macros_view(self.macros@);
        match self.find_macro(name.as_str()) {
            Some(i) => {
                self.macros.set(i, (name, body));
                proof {
                    assert(macros_view(self.macros@) =~= mv.update(i as int, (name@, body@)));
                }
            },
            None => {
                self.macros.push((name, body));
                proof {
                    assert(macros_view(self.macros@) =~= mv.push((name@, body@)));
                }
            },
        }
    }

    /// The place of the first module called `name`.
    fn find_module(&self, name: &str) -> (r: Option<usize>)
        ensures
            match r {
                Some(k) => k < self.modules@.len() && find_module_from(modules_view(self.modules@), name@, 0) == Some(k as int),
                None => find_module_from(modules_view(self.modules@), name@, 0) is None,
            },
    {
        let ghost mv = modules_view(self.modules@);
        let mut i: usize = 0;
        while i < self.modules.len()
            invariant
                i <= self.modules@.len(),
                mv == modules_view(self.modules@),
                find_module_from(mv, name@, 0) == find_module_from(mv, name@, i as int),
            decreases self.modules@.len() - i,
        {
            if str_eq(self.modules[i].0.as_str(), name) {
                return Some(i);
            }
            i = i + 1;
        }
        None
    }

    /// The first of `places` that is the path of a module of the table.
    fn find_place(&self, places: &Vec<String>) -> (r: Option<usize>)
        ensures
            match r {
                Some(k) => k < self.modules@.len() && find_place(modules_view(self.modules@), strings_view(places@), 0)
                    == Some(k as int),
                None => find_place(modules_view(self.modules@), strings_view(places@), 0) is None,
            },
    {
        let ghost mv = modules_view(self.modules@);
        let ghost pv = strings_view(places@);
        let mut i: usize = 0;
        while i < places.len()
            invariant
                i <= places@.len(),
                mv == modules_view(self.modules@),
                pv == strings_view(places@),
                find_place(mv, pv, 0) == find_place(mv, pv, i as int),
            decreases places@.len() - i,
        {
            match self.find_module(places[i].as_str()) {
                Some(k) => {
                    return Some(k);
                },
                None => {},
            }
            i = i + 1;
        }
        None
    }

    /// The identity of the file at the path `p`, where the table has it.
    fn file_id(&self, p: &str) -> (r: Option<&String>)
        ensures
            match r {
                Some(id) => file_id(pairs_view(self.file_ids@), p@, 0) == Some(id@),
                None => file_id(pairs_view(self.file_ids@), p@, 0) is None,
            },
    {
        let ghost iv = pairs_view(self.file_ids@);
        let mut i: usize = 0;
        while i < self.file_ids.len()
            invariant
                i <= self.file_ids@.len(),
                iv == pairs_view(self.file_ids@),
                file_id(iv, p@, 0) == file_id(iv, p@, i as int),
            decreases self.file_ids@.len() - i,
        {
            if str_eq(self.file_ids[i].0.as_str(), p) {
                return Some(&self.file_ids[i].1);
            }
            i = i + 1;
        }
        None
    }

    /// Whether a module imported before is the same file as the one at `p`.
    fn imported_before(&self, p: &str) -> (r: bool)
        ensures
            r == imported_before(pairs_view(self.file_ids@), strings_view(self.already_included@), p@),
    {
        let ghost iv = pairs_view(self.file_ids@);
        let ghost sv = strings_view(self.already_included@);
        let target = self.file_id(p);
        let mut i: usize = 0;
        while i < self.already_included.len()
            invariant
                i <= self.already_included@.len(),
                iv == pairs_view(self.file_ids@),
                sv == strings_view(self.already_included@),
                match target {
                    Some(id) => file_id(iv, p@, 0) == Some(id@),
                    None => file_id(iv, p@, 0) is None,
                },
                forall|j: int| 0 <= j < i ==> !same_file(iv, #[trigger] sv[j], p@),
            decreases self.already_included@.len() - i,
        {
            let same = match (self.file_id(self.already_included[i].as_str()), target) {
                (Some(a), Some(b)) => str_eq(a.as_str(), b.as_str()),
                _ => true,
            };
            if same {
                proof {
                    assert(sv[i as int] == self.already_included@[i as int]@);
                    assert(same_file(iv, sv[i as int], p@));
                }
                return true;
            }
            proof {
                assert(sv[i as int] == self.already_included@[i as int]@);
            }
            i = i + 1;
        }
        false
    }

    /// A whole token sequence: a block, then the end of the file. Gives the
    /// block, or the first syntax error.
    pub fn parse(&mut self) -> (r: Result<Node, Error>)
        requires
            old(self).token_index <= old(self).tokens@.len(),
            p_parse(old(self).ctx(), old(self).state()) is Some,
        ensures
            steps(*old(self), *final(self)),
            p_parse(old(self).ctx(), old(self).state()) == Some((
                final(self).state(),
                match r {
                    Ok(n) => Ok(n@),
                    Err(e) => Err(e@),
                },
            )),
        decreases old(self).modules@.len(), old(self).tokens@.len() - old(self).token_index, 30int,
    {
        let mut res = ParseResult::new();

        let stmts = res.register_res(self.statements(true));
        if res.has_error() {
            return Err(match res.error() {
                Some(e) => e.clone(),
                None => unreached(),
            });
        }

        if self.cur().token_type() != TokenType::Eof {
            let t = self.cur();
            return Err(error::invalid_syntax_error(t.pos_start().clone(), t.pos_end().clone(), "Expected end of file!"));
        }

        match stmts {
            Some(n) => Ok(n),
            None => unreached(),
        }
    }

    /// `{ statement; statement; ... }`.
    fn statements(&mut self, is_top_level: bool) -> (res: ParseResult)
        requires
            old(self).token_index <= old(self).tokens@.len(),
            p_statements(old(self).ctx(), old(self).state(), is_top_level) is Some,
        ensures
            steps(*old(self), *final(self)),
            p_statements(old(self).ctx(), old(self).state(), is_top_level) == Some((final(self).state(), pres(res))),
            pres_ok(res),
        decreases old(self).modules@.len(), old(self).tokens@.len() - old(self).token_index, 27int,
    {
        let mut res = ParseResult::new();
        let ghost c = self.ctx();
        let ghost s0 = self.state();

        if !self.expect(&mut res, TokenType::Lcurly, "{") {
            return res;
        }
        self.advance(&mut res);

        let mut statements: Vec<Node> = Vec::new();
        let pos_start = self.cur().pos_start().clone();
        let ghost s1 = self.state();

        while self.cur().token_type() == TokenType::Newline
            invariant
                steps(*old(self), *self),
                c == self.ctx(),
                skip_newlines(c, s1) == skip_newlines(c, self.state()),
                skip_newlines(c, self.state()) is Some,
                self.token_index > old(self).token_index,
                res@.error is None,
                res@.node is None,
                res@.to_reverse_count == 0,
            decreases self.tokens@.len() - self.token_index,
        {
            self.advance(&mut res);
        }

        let first = res.register_res(self.statement(is_top_level));
        if res.has_error() {
            return res;
        }
        let first = match first {
            Some(n) => n,
            None => unreached(),
        };
        statements.push(first);
        proof {
            lemma_nodes_view_push(Seq::empty(), first);
            assert(Seq::<Node>::empty().push(first) =~= statements@);
            assert(nodes_view(Seq::<Node>::empty()) =~= Seq::<SpecNode>::empty());
        }

        if !self.expect(&mut res, TokenType::Newline, ";") {
            return res;
        }
        self.advance(&mut res);

        while self.cur().token_type() != TokenType::Eof && self.cur().token_type() != TokenType::Rcurly
            invariant
                steps(*old(self), *self),
                c == self.ctx(),
                c == old(self).ctx(),
                s0 == old(self).state(),
                p_statements(c, s0, is_top_level) == p_stmts_loop(c, self.state(), is_top_level, nodes_view(statements@), pos_start@),
                p_statements(c, s0, is_top_level) is Some,
                self.token_index > old(self).token_index,
                res@.error is None,
                res@.node is None,
                res@.to_reverse_count == 0,
            decreases self.tokens@.len() - self.token_index,
        {
            let statement = res.register_res(self.statement(is_top_level));
            if res.has_error() {
                return res;
            }
            let statement = match statement {
                Some(n) => n,
                None => unreached(),
            };
            let ghost before = statements@;
            statements.push(statement);
            proof {
                lemma_nodes_view_push(before, statement);
            }

            if !self.expect(&mut res, TokenType::Newline, ";") {
                return res;
            }
            self.advance(&mut res);
        }

        self.advance(&mut res);

        let pos_end = self.cur().pos_end().clone();
        res.success(Node::Statements { statements, pos_start, pos_end });
        res
    }

    /// One statement: the definitions allowed at the top level, or, inside a
    /// function, a block, a jump, inline assembly or an expression.
    fn statement(&mut self, is_top_level: bool) -> (res: ParseResult)
        requires
            old(self).token_index <= old(self).tokens@.len(),
            p_statement(old(self).ctx(), old(self).state(), is_top_level) is Some,
        ensures
            steps(*old(self), *final(self)),
            p_statement(old(self).ctx(), old(self).state(), is_top_level) == Some((final(self).state(), pres(res))),
            pres_ok(res),
        decreases old(self).modules@.len(), old(self).tokens@.len() - old(self).token_index, 28int,
    {
        let mut res = ParseResult::new();
        let pos_start = self.cur().pos_start().clone();

        if is_top_level {
            if self.cur().matches_keyword("fun") {
                return self.function_def();
            }
            if self.cur().matches_keyword("const") {
                return self.statement_const();
            }
            if self.cur().matches_keyword("struct") {
                return self.statement_struct(pos_start);
            }
            if self.cur().matches_keyword("import") {
                return self.statement_import();
            }
            if self.cur().matches_keyword("macro") {
                return self.statement_macro();
            }
            if self.cur().matches_keyword("static") {
                return self.statement_static(pos_start);
            }
        } else {
            if self.cur().token_type() == TokenType::Lcurly {
                return self.statements(false);
            }
            if self.cur().matches_keyword("return") {
                return self.statement_return(pos_start);
            }
            if self.cur().matches_keyword("continue") {
                self.advance(&mut res);
                let pos_end = self.cur().pos_end().clone();
                res.success(Node::Continue { pos_start, pos_end });
                return res;
            }
            if self.cur().matches_keyword("break") {
                self.advance(&mut res);
                let pos_end = self.cur().pos_end().clone();
                res.success(Node::Break { pos_start, pos_end });
                return res;
            }
            if self.cur().matches_keyword("asm") {
                return self.statement_asm(pos_start);
            }

            let expr = res.register_res(self.expression());
            if res.has_error() {
                self.wrap_error(&mut res, "Expected non top level statement or expression!");
                return res;
            }
            match expr {
                Some(n) => res.success(n),
                None => unreached(),
            }
            return res;
        }

        self.fail_here(&mut res, "Expected statement or expression!");
        res
    }

    /// `const name: type = value`, from the keyword.
    fn statement_const(&mut self) -> (res: ParseResult)
        requires
            old(self).token_index <= old(self).tokens@.len(),
            p_stmt_const(old(self).ctx(), old(self).state()) is Some,
        ensures
            steps(*old(self), *final(self)),
            p_stmt_const(old(self).ctx(), old(self).state()) == Some((final(self).state(), pres(res))),
            pres_ok(res),
        decreases old(self).modules@.len(), old(self).tokens@.len() - old(self).token_index, 26int,
    {
        let mut res = ParseResult::new();
        let pos_start = self.cur().pos_start().clone();

        self.advance(&mut res);

        if !self.expect(&mut res, TokenType::Identifier, "name of constant") {
            return res;
        }

        let name = self.cur_value();

        self.advance(&mut res);

        if !self.expect(&mut res, TokenType::Colon, ":") {
            return res;
        }

        self.advance(&mut res);

        let tc = res.register_res(self.parse_intrinsic_type());
        if res.has_error() {
            return res;
        }
        let const_type = match tc {
            Some(n) => carried(n),
            None => unreached(),
        };

        if !self.expect(&mut res, TokenType::Eq, "=") {
            return res;
        }

        self.advance(&mut res);

        let value_node = res.register_res(self.expression());
        if res.has_error() {
            return res;
        }
        let value_node = match value_node {
            Some(n) => n,
            None => unreached(),
        };

        res.success(Node::ConstDef { name, value: Box::new(value_node), value_type: const_type, pos_start });
        res
    }

    /// `import "module"`, from the keyword.
    fn statement_import(&mut self) -> (res: ParseResult)
        requires
            old(self).token_index <= old(self).tokens@.len(),
            p_stmt_import(old(self).ctx(), old(self).state()) is Some,
        ensures
            steps(*old(self), *final(self)),
            p_stmt_import(old(self).ctx(), old(self).state()) == Some((final(self).state(), pres(res))),
            pres_ok(res),
        decreases old(self).modules@.len(), old(self).tokens@.len() - old(self).token_index, 26int,
    {
        let mut res = ParseResult::new();
        let ghost c = self.ctx();
        let pos_start = self.cur().pos_start().clone();

        self.advance(&mut res);

        if !self.expect(&mut res, TokenType::String, "name of module") {
            return res;
        }

        let module_name = self.cur_value();
        let file = self.cur().pos_start().file_name().clone();
        let places = match locations(file.as_str(), module_name.as_str(), &self.include_paths) {
            Some(places) => places,
            None => {
                return unreached();
            },
        };
        proof {
            assert(texts(self.include_paths@) =~= strings_view(self.include_paths@));
            assert(texts(places@) =~= strings_view(places@));
        }

        self.advance(&mut res);

        let k = match self.find_place(&places) {
            Some(k) => k,
            None => {
                let m = concat3("Module '", module_name.as_str(), "' not found!");
                self.fail_here(&mut res, m.as_str());
                return res;
            },
        };

        if self.imported_before(self.modules[k].0.as_str()) {
            let t = self.cur();
            res.success(Node::Ignored { pos_start: t.pos_start().clone(), pos_end: t.pos_end().clone() });
            return res;
        }

        proof {
            lemma_find_place(c.modules, strings_view(places@), 0);
        }
        let found_path = self.modules[k].0.clone();
        let sub_tokens = clone_tokens(&self.modules[k].1);
        if sub_tokens.len() == 0 {
            return unreached();
        }
        let sub_modules = modules_without(&self.modules, k);
        proof {
            assert(modules_view(sub_modules@).len() == sub_modules@.len());
            assert(modules_view(self.modules@).len() == self.modules@.len());
            assert(sub_modules@.len() < old(self).modules@.len());
        }

        let mut macros: Vec<(String, Node)> = Vec::new();
        std::mem::swap(&mut macros, &mut self.macros);
        let mut included: Vec<String> = Vec::new();
        std::mem::swap(&mut included, &mut self.already_included);

        let mut p = Parser {
            tokens: sub_tokens,
            token_index: 0,
            macros,
            already_included: included,
            include_paths: clone_strings(&self.include_paths),
            modules: sub_modules,
            file_ids: clone_pairs(&self.file_ids),
        };
        let parse_res = p.parse();
        let Parser { macros: sub_macros, already_included: sub_included, .. } = p;
        self.macros = sub_macros;
        self.already_included = sub_included;

        match parse_res {
            Err(e) => {
                let m = concat3("Failed to import module '", module_name.as_str(), "'!");
                let pos_end = self.cur().pos_end().clone();
                res.failure(error::semantic_error_with_parent(pos_start, pos_end, m.as_str(), e));
                res
            },
            Ok(root) => {
                let ghost before = self.already_included@;
                self.already_included.push(found_path);
                proof {
                    assert(strings_view(self.already_included@) =~= strings_view(before).push(found_path@));
                }
                res.success(Node::Import { node: Box::new(root) });
                res
            },
        }
    }

    /// `macro name expression`, from the keyword.
    fn statement_macro(&mut self) -> (res: ParseResult)
        requires
            old(self).token_index <= old(self).tokens@.len(),
            p_stmt_macro(old(self).ctx(), old(self).state()) is Some,
        ensures
            steps(*old(self), *final(self)),
            p_stmt_macro(old(self).ctx(), old(self).state()) == Some((final(self).state(), pres(res))),
            pres_ok(res),
        decreases old(self).modules@.len(), old(self).tokens@.len() - old(self).token_index, 26int,
    {
        let mut res = ParseResult::new();
        let pos_start = self.cur().pos_start().clone();

        self.advance(&mut res);

        if !self.expect(&mut res, TokenType::Identifier, "name of macro") {
            return res;
        }

        let name = self.cur_value();

        self.advance(&mut res);

        let macro_body = res.register_res(self.expression());
        if res.has_error() {
            return res;
        }
        let macro_body = match macro_body {
            Some(n) => n,
            None => unreached(),
        };

        self.insert_macro(name, macro_body);

        let pos_end = self.cur().pos_end().clone();
        res.success(Node::MacroDef { pos_start, pos_end });
        res
    }

    /// `static [mut] name: type = value`, from the keyword.
    fn statement_static(&mut self, pos_start: Position) -> (res: ParseResult)
        requires
            old(self).token_index <= old(self).tokens@.len(),
            p_stmt_static(old(self).ctx(), old(self).state(), pos_start@) is Some,
        ensures
            steps(*old(self), *final(self)),
            p_stmt_static(old(self).ctx(), old(self).state(), pos_start@) == Some((final(self).state(), pres(res))),
            pres_ok(res),
        decreases old(self).modules@.len(), old(self).tokens@.len() - old(self).token_index, 26int,
    {
        let mut res = ParseResult::new();

        self.advance(&mut res);

        let mut is_mutable: bool = false;
        if self.cur().matches_keyword("mut") {
            self.advance(&mut res);
            is_mutable = true;
        }

        if !self.expect(&mut res, TokenType::Identifier, "name of static") {
            return res;
        }

        let static_name = self.cur_value();

        self.advance(&mut res);

        if !self.expect(&mut res, TokenType::Colon, ":") {
            return res;
        }

        self.advance(&mut res);

        let tc = res.register_res(self.parse_intrinsic_type());
        if res.has_error() {
            return res;
        }
        let in_type = match tc {
            Some(n) => carried(n),
            None => unreached(),
        };

        if !self.expect(&mut res, TokenType::Eq, "=") {
            return res;
        }

        self.advance(&mut res);

        let expr = res.register_res(self.expression());
        if res.has_error() {
            return res;
        }
        let expr = match expr {
            Some(n) => n,
            None => unreached(),
        };

        res.success(Node::StaticDef { name: static_name, value_type: in_type, value: Box::new(expr), is_mutable, pos_start });
        res
    }

    /// `return [expression]`, from the keyword.
    fn statement_return(&mut self, pos_start: Position) -> (res: ParseResult)
        requires
            old(self).token_index <= old(self).tokens@.len(),
            p_stmt_return(old(self).ctx(), old(self).state(), pos_start@) is Some,
        ensures
            steps(*old(self), *final(self)),
            p_stmt_return(old(self).ctx(), old(self).state(), pos_start@) == Some((final(self).state(), pres(res))),
            pres_ok(res),
        decreases old(self).modules@.len(), old(self).tokens@.len() - old(self).token_index, 26int,
    {
        let mut res = ParseResult::new();

        self.advance(&mut res);

        let (expr, _) = res.try_register_res(self.expression());
        if expr.is_none() {
            self.reverse(res.to_reverse_count());
        }

        let pos_end = self.cur().pos_end().clone();
        let value = match expr {
            Some(n) => Some(Box::new(n)),
            None => None,
        };
        res.success(Node::Return { value, pos_start, pos_end });
        res
    }

    /// An expression: a variable declaration, a system call, or operators of
    /// all levels, optionally followed by a read of some bytes.
    fn expression(&mut self) -> (res: ParseResult)
        requires
            old(self).token_index <= old(self).tokens@.len(),
            p_expression(old(self).ctx(), old(self).state()) is Some,
        ensures
            steps(*old(self), *final(self)),
            p_expression(old(self).ctx(), old(self).state()) == Some((final(self).state(), pres(res))),
            pres_ok(res),
        decreases old(self).modules@.len(), old(self).tokens@.len() - old(self).token_index, 25int,
    {
        let mut res = ParseResult::new();
        let pos_start = self.cur().pos_start().clone();

        if self.cur().matches_keyword("let") {
            return self.expression_let(pos_start);
        }

        if self.cur().matches_keyword("syscall") {
            return self.expression_syscall(pos_start);
        }

        let node = res.register_res(self.bin_operation(
            BinOpFunction::Comp,
            vec![TokenType::And, TokenType::Or],
            BinOpFunction::Comp,
        ));
        if res.has_error() {
            self.wrap_error(&mut res, "Expected comparison expression!");
            return res;
        }
        let node = match node {
            Some(n) => n,
            None => unreached(),
        };

        if self.cur().token_type() == TokenType::ReadBytes {
            let v = self.cur_value();
            let bytes: u64 = match parse_u64(v.as_str()) {
                Some(b) => b,
                None => unreached(),
            };
            if bytes != 1 && bytes != 2 && bytes != 4 && bytes != 8 {
                self.fail_here(&mut res, "Invalid number of bytes!");
                return res;
            }

            let size = if bytes == 1 {
                ValueSize::Byte
            } else if bytes == 2 {
                ValueSize::Word
            } else if bytes == 4 {
                ValueSize::Dword
            } else {
                ValueSize::Qword
            };

            self.advance(&mut res);

            let pos_end = self.cur().pos_end().clone();
            res.success(Node::ReadBytes { node: Box::new(node), bytes: size, pos_end });
            return res;
        }

        res.success(node);
        res
    }

    /// `let [mut] name: type = value`, from the keyword.
    fn expression_let(&mut self, pos_start: Position) -> (res: ParseResult)
        requires
            old(self).token_index <= old(self).tokens@.len(),
            p_expr_let(old(self).ctx(), old(self).state(), pos_start@) is Some,
        ensures
            steps(*old(self), *final(self)),
            p_expr_let(old(self).ctx(), old(self).state(), pos_start@) == Some((final(self).state(), pres(res))),
            pres_ok(res),
        decreases old(self).modules@.len(), old(self).tokens@.len() - old(self).token_index, 24int,
    {
        let mut res = ParseResult::new();

        self.advance(&mut res);

        let mut is_mutable = false;
        if self.cur().matches_keyword("mut") {
            is_mutable = true;
            self.advance(&mut res);
        }

        if !self.expect(&mut res, TokenType::Identifier, "name of variable") {
            return res;
        }
        if self.cur().token_value().is_none() {
            self.fail_here(&mut res, "Expected token to have value!");
            return res;
        }

        let var_name = self.cur_value();

        self.advance(&mut res);

        if !self.expect(&mut res, TokenType::Colon, ":") {
            return res;
        }

        self.advance(&mut res);

        if !self.expect(&mut res, TokenType::Keyword, "type") {
            return res;
        }

        let tc = res.register_res(self.parse_intrinsic_type());
        if res.has_error() {
            return res;
        }
        let var_type = match tc {
            Some(n) => carried(n),
            None => unreached(),
        };

        if !self.expect(&mut res, TokenType::Eq, "=") {
            return res;
        }

        self.advance(&mut res);

        let expr = res.register_res(self.expression());
        if res.has_error() {
            return res;
        }
        let expr = match expr {
            Some(n) => n,
            None => unreached(),
        };

        res.success(Node::VarDeclaration(VarDeclarationNode::new(var_name, var_type, expr, is_mutable, pos_start)));
        res
    }

    /// `syscall [a, b, c, d]`, from the keyword.
    fn expression_syscall(&mut self, pos_start: Position) -> (res: ParseResult)
        requires
            old(self).token_index <= old(self).tokens@.len(),
            p_expr_syscall(old(self).ctx(), old(self).state(), pos_start@) is Some,
        ensures
            steps(*old(self), *final(self)),
            p_expr_syscall(old(self).ctx(), old(self).state(), pos_start@) == Some((final(self).state(), pres(res))),
            pres_ok(res),
        decreases old(self).modules@.len(), old(self).tokens@.len() - old(self).token_index, 24int,
    {
        let mut res = ParseResult::new();
        let ghost c = self.ctx();
        let ghost s0 = self.state();

        self.advance(&mut res);

        if !self.expect(&mut res, TokenType::Lsquare, "[") {
            return res;
        }

        self.advance(&mut res);

        let mut exprs: Vec<Node> = Vec::new();

        let new_expr = res.register_res(self.expression());
        if res.has_error() {
            return res;
        }
        let new_expr = match new_expr {
            Some(n) => n,
            None => unreached(),
        };
        exprs.push(new_expr);
        proof {
            lemma_nodes_view_push(Seq::empty(), new_expr);
            assert(Seq::<Node>::empty().push(new_expr) =~= exprs@);
            assert(nodes_view(Seq::<Node>::empty()) =~= Seq::<SpecNode>::empty());
        }

        let mut k: usize = 0;
        while k < 3
            invariant
                steps(*old(self), *self),
                c == self.ctx(),
                c == old(self).ctx(),
                s0 == old(self).state(),
                k <= 3,
                p_expr_syscall(c, s0, pos_start@) == p_syscall_rest(c, self.state(), nodes_view(exprs@), (3 - k) as nat, pos_start@),
                p_expr_syscall(c, s0, pos_start@) is Some,
                self.token_index > old(self).token_index,
                res@.error is None,
                res@.node is None,
                res@.to_reverse_count == 0,
            decreases 3 - k,
        {
            if !self.expect(&mut res, TokenType::Comma, ",") {
                return res;
            }

            self.advance(&mut res);

            let new_expr = res.register_res(self.expression());
            if res.has_error() {
                return res;
            }
            let new_expr = match new_expr {
                Some(n) => n,
                None => unreached(),
            };
            let ghost before = exprs@;
            exprs.push(new_expr);
            proof {
                lemma_nodes_view_push(before, new_expr);
            }
            k = k + 1;
        }

        if !self.expect(&mut res, TokenType::Rsquare, "]") {
            return res;
        }

        self.advance(&mut res);

        let pos_end = self.cur().pos_end().clone();
        res.success(Node::Syscall { args: exprs, pos_start, pos_end });
        res
    }

    /// The operands of the level `func`.
    fn eval_bin_op_function(&mut self, func: BinOpFunction) -> (res: ParseResult)
        requires
            old(self).token_index <= old(self).tokens@.len(),
            p_eval(old(self).ctx(), old(self).state(), func) is Some,
        ensures
            steps(*old(self), *final(self)),
            p_eval(old(self).ctx(), old(self).state(), func) == Some((final(self).state(), pres(res))),
            pres_ok(res),
        decreases old(self).modules@.len(), old(self).tokens@.len() - old(self).token_index, rules::bin_rank(func) + 1,
    {
        match func {
            BinOpFunction::Arith => self.arith_expression(),
            BinOpFunction::Comp => self.comp_expression(),
            BinOpFunction::Term => self.term(),
            BinOpFunction::Factor => self.factor(),
            BinOpFunction::Call => self.call(),
        }
    }

    /// Operands of the level `fn_a`, joined from the left by the operators
    /// `ops`, each followed by an operand of the level `fn_b`.
    fn bin_operation(&mut self, fn_a: BinOpFunction, ops: Vec<TokenType>, fn_b: BinOpFunction) -> (res: ParseResult)
        requires
            old(self).token_index <= old(self).tokens@.len(),
            p_bin(old(self).ctx(), old(self).state(), fn_a, ops@, fn_b) is Some,
        ensures
            steps(*old(self), *final(self)),
            p_bin(old(self).ctx(), old(self).state(), fn_a, ops@, fn_b) == Some((final(self).state(), pres(res))),
            pres_ok(res),
        decreases old(self).modules@.len(), old(self).tokens@.len() - old(self).token_index, rules::bin_rank(fn_a) + 3,
    {
        let mut res = ParseResult::new();
        let ghost c = self.ctx();
        let ghost s0 = self.state();

        let left = res.register_res(self.eval_bin_op_function(fn_a));
        if res.has_error() {
            return res;
        }
        let mut left = match left {
            Some(n) => n,
            None => unreached(),
        };

        while contains_token_type(&ops, self.cur().token_type())
            invariant
                steps(*old(self), *self),
                c == self.ctx(),
                c == old(self).ctx(),
                s0 == old(self).state(),
                p_bin(c, s0, fn_a, ops@, fn_b) == p_bin_loop(c, self.state(), fn_a, ops@, fn_b, left@),
                p_bin(c, s0, fn_a, ops@, fn_b) is Some,
                res@.error is None,
                res@.node is None,
                res@.to_reverse_count == 0,
            decreases self.tokens@.len() - self.token_index,
        {
            let op_token = self.cur().clone();

            self.advance(&mut res);

            let right = res.register_res(self.eval_bin_op_function(fn_b));
            if res.has_error() {
                return res;
            }
            let right = match right {
                Some(n) => n,
                None => unreached(),
            };

            left = Node::BinOp { left: Box::new(left), op: op_token, right: Box::new(right) };
        }

        res.success(left);
        res
    }

    /// Comparisons.
    fn comp_expression(&mut self) -> (res: ParseResult)
        requires
            old(self).token_index <= old(self).tokens@.len(),
            p_comp(old(self).ctx(), old(self).state()) is Some,
        ensures
            steps(*old(self), *final(self)),
            p_comp(old(self).ctx(), old(self).state()) == Some((final(self).state(), pres(res))),
            pres_ok(res),
        decreases old(self).modules@.len(), old(self).tokens@.len() - old(self).token_index, 21int,
    {
        let mut res = ParseResult::new();

        let node = res.register_res(self.bin_operation(
            BinOpFunction::Arith,
            vec![
                TokenType::Ee,
                TokenType::Ne,
                TokenType::Gt,
                TokenType::Lt,
                TokenType::Gte,
                TokenType::Lte,
                TokenType::PointerAssign,
            ],
            BinOpFunction::Arith,
        ));
        if res.has_error() {
            self.wrap_error(&mut res, "Expected arithmetic expression!");
            return res;
        }

        match node {
            Some(n) => res.success(n),
            None => unreached(),
        }
        res
    }

    /// Sums and differences.
    fn arith_expression(&mut self) -> (res: ParseResult)
        requires
            old(self).token_index <= old(self).tokens@.len(),
            p_arith(old(self).ctx(), old(self).state()) is Some,
        ensures
            steps(*old(self), *final(self)),
            p_arith(old(self).ctx(), old(self).state()) == Some((final(self).state(), pres(res))),
            pres_ok(res),
        decreases old(self).modules@.len(), old(self).tokens@.len() - old(self).token_index, 17int,
    {
        self.bin_operation(BinOpFunction::Term, vec![TokenType::Plus, TokenType::Minus], BinOpFunction::Term)
    }

    /// Products, quotients and remainders.
    fn term(&mut self) -> (res: ParseResult)
        requires
            old(self).token_index <= old(self).tokens@.len(),
            p_term(old(self).ctx(), old(self).state()) is Some,
        ensures
            steps(*old(self), *final(self)),
            p_term(old(self).ctx(), old(self).state()) == Some((final(self).state(), pres(res))),
            pres_ok(res),
        decreases old(self).modules@.len(), old(self).tokens@.len() - old(self).token_index, 13int,
    {
        self.bin_operation(
            BinOpFunction::Factor,
            vec![TokenType::Mul, TokenType::Div, TokenType::Modulo],
            BinOpFunction::Factor,
        )
    }

    /// A unary operation, a dereference, or bit operations on calls.
    fn factor(&mut self) -> (res: ParseResult)
        requires
            old(self).token_index <= old(self).tokens@.len(),
            p_factor(old(self).ctx(), old(self).state()) is Some,
        ensures
            steps(*old(self), *final(self)),
            p_factor(old(self).ctx(), old(self).state()) == Some((final(self).state(), pres(res))),
            pres_ok(res),
        decreases old(self).modules@.len(), old(self).tokens@.len() - old(self).token_index, 9int,
    {
        let mut res = ParseResult::new();
        let t = self.cur().token_type();

        if t == TokenType::Plus || t == TokenType::Minus || t == TokenType::Not || t == TokenType::BitNot {
            let token = self.cur().clone();

            self.advance(&mut res);

            let factor = res.register_res(self.factor());
            if res.has_error() {
                return res;
            }
            match factor {
                Some(f) => res.success(Node::UnaryOp { op: token, node: Box::new(f) }),
                None => unreached(),
            }
            return res;
        }

        if t == TokenType::Mul {
            self.advance(&mut res);

            let factor = res.register_res(self.factor());
            if res.has_error() {
                return res;
            }
            match factor {
                Some(f) => res.success(Node::Dereference { node: Box::new(f) }),
                None => unreached(),
            }
            return res;
        }

        self.bin_operation(
            BinOpFunction::Call,
            vec![TokenType::BitAnd, TokenType::BitOr, TokenType::BitXor, TokenType::BitShl, TokenType::BitShr],
            BinOpFunction::Call,
        )
    }

    /// An atom, optionally called with arguments, then indexed, accessed or
    /// cast.
    fn call(&mut self) -> (res: ParseResult)
        requires
            old(self).token_index <= old(self).tokens@.len(),
            p_call(old(self).ctx(), old(self).state()) is Some,
        ensures
            steps(*old(self), *final(self)),
            p_call(old(self).ctx(), old(self).state()) == Some((final(self).state(), pres(res))),
            pres_ok(res),
        decreases old(self).modules@.len(), old(self).tokens@.len() - old(self).token_index, 5int,
    {
        let mut res = ParseResult::new();
        let ghost c = self.ctx();
        let ghost s0 = self.state();

        let atom = res.register_res(self.atom());
        if res.has_error() {
            return res;
        }
        let mut atom = match atom {
            Some(n) => n,
            None => unreached(),
        };

        if self.cur().token_type() == TokenType::Lparen {
            self.advance(&mut res);
            let ghost s2 = self.state();

            let arg_nodes = match self.call_args(&mut res) {
                Some(a) => a,
                None => {
                    return res;
                },
            };

            atom = match atom {
                Node::VarAccess(va) => Node::Call { name: va.var_name, args: arg_nodes, pos_start: va.pos_start },
                _ => {
                    self.fail_here(&mut res, "Dynamic calls aren't implemented yet!");
                    return unreached();
                },
            };
        }

        while self.cur().token_type() == TokenType::Lsquare || self.cur().token_type() == TokenType::Dot
            invariant
                steps(*old(self), *self),
                c == self.ctx(),
                c == old(self).ctx(),
                s0 == old(self).state(),
                p_call(c, s0) == p_postfix(c, self.state(), atom@),
                p_call(c, s0) is Some,
                res@.error is None,
                res@.node is None,
                res@.to_reverse_count == 0,
            decreases self.tokens@.len() - self.token_index,
        {
            let token_type = self.cur().token_type();
            let s_pos_start = self.cur().pos_start().clone();

            self.advance(&mut res);

            if token_type == TokenType::Lsquare {
                let expr = res.register_res(self.expression());
                if res.has_error() {
                    return res;
                }
                let expr = match expr {
                    Some(n) => n,
                    None => unreached(),
                };

                if !self.expect(&mut res, TokenType::Rsquare, "]") {
                    return res;
                }

                let pos_end = self.cur().pos_end().clone();
                atom = Node::BinOp {
                    left: Box::new(atom),
                    op: Token::new_without_value(TokenType::Offset, s_pos_start, pos_end),
                    right: Box::new(expr),
                };
            } else {
                if !self.expect(&mut res, TokenType::Identifier, "accessor") {
                    return res;
                }
                if self.cur().token_value().is_none() {
                    self.fail_here(&mut res, "Expected token to have value!");
                    return res;
                }

                let accessor = self.cur_value();
                let pos_end = self.cur().pos_end().clone();
                atom = Node::Accessor { node: Box::new(atom), accessor, pos_end };
            }

            self.advance(&mut res);
        }

        if self.cur().matches_keyword("as") {
            self.advance(&mut res);

            let tc = res.register_res(self.parse_intrinsic_type());
            if res.has_error() {
                return res;
            }
            let cast_type = match tc {
                Some(n) => carried(n),
                None => unreached(),
            };

            let pos_end = self.cur().pos_end().clone();
            atom = Node::Cast { node: Box::new(atom), cast_type, pos_end };
        }

        res.success(atom);
        res
    }

    /// The arguments of a call, after the `(`, up to and past the `)`;
    /// `None` where they have a syntax error, which `res` then holds.
    fn call_args(&mut self, res: &mut ParseResult) -> (r: Option<Vec<Node>>)
        requires
            old(self).token_index <= old(self).tokens@.len(),
            p_call_args(old(self).ctx(), old(self).state()) is Some,
            old(res)@.error is None,
            old(res)@.to_reverse_count == 0,
        ensures
            steps(*old(self), *final(self)),
            p_call_args(old(self).ctx(), old(self).state()) == Some((
                final(self).state(),
                match r {
                    Some(v) => Ok(nodes_view(v@)),
                    None => Err(final(res)@.error->0@),
                },
            )),
            (r is None) == (final(res)@.error is Some),
            final(res)@.node == old(res)@.node,
            final(res)@.to_reverse_count == 0,
        decreases old(self).modules@.len(), old(self).tokens@.len() - old(self).token_index, 26int,
    {
        let ghost c = self.ctx();
        let ghost s0 = self.state();
        let mut arg_nodes: Vec<Node> = Vec::new();

        if self.cur().token_type() == TokenType::Rparen {
            self.advance(res);
            proof {
                assert(nodes_view(arg_nodes@) =~= Seq::<SpecNode>::empty());
            }
            return Some(arg_nodes);
        }

        let new_arg = res.register_res(self.expression());
        if res.has_error() {
            self.wrap_error(res, "Expected expression as function call argument!");
            return None;
        }
        let new_arg = match new_arg {
            Some(n) => n,
            None => unreached(),
        };
        arg_nodes.push(new_arg);
        proof {
            lemma_nodes_view_push(Seq::empty(), new_arg);
            assert(Seq::<Node>::empty().push(new_arg) =~= arg_nodes@);
            assert(nodes_view(Seq::<Node>::empty()) =~= Seq::<SpecNode>::empty());
        }

        while self.cur().token_type() == TokenType::Comma
            invariant
                steps(*old(self), *self),
                c == self.ctx(),
                c == old(self).ctx(),
                s0 == old(self).state(),
                p_call_args(c, s0) == p_args_loop(c, self.state(), nodes_view(arg_nodes@)),
                p_call_args(c, s0) is Some,
                res@.error is None,
                res@.node == old(res)@.node,
                res@.to_reverse_count == 0,
            decreases self.tokens@.len() - self.token_index,
        {
            self.advance(res);

            let new_arg = res.register_res(self.expression());
            if res.has_error() {
                self.wrap_error(res, "Expected expression as function call argument!");
                return None;
            }
            let new_arg = match new_arg {
                Some(n) => n,
                None => unreached(),
            };
            let ghost before = arg_nodes@;
            arg_nodes.push(new_arg);
            proof {
                lemma_nodes_view_push(before, new_arg);
            }
        }

        if !self.expect(res, TokenType::Rparen, ")") {
            return None;
        }

        self.advance(res);
        Some(arg_nodes)
    }

    /// The smallest expressions: literals, names, parenthesised
    /// expressions, lists, loops, conditionals and `sizeof`.
    fn atom(&mut self) -> (res: ParseResult)
        requires
            old(self).token_index <= old(self).tokens@.len(),
            p_atom(old(self).ctx(), old(self).state()) is Some,
        ensures
            steps(*old(self), *final(self)),
            p_atom(old(self).ctx(), old(self).state()) == Some((final(self).state(), pres(res))),
            pres_ok(res),
        decreases old(self).modules@.len(), old(self).tokens@.len() - old(self).token_index, 4int,
    {
        let mut res = ParseResult::new();
        let token = self.cur().clone();

        let node: Node;

        if token.token_type() == TokenType::U64 {
            self.advance(&mut res);

            node = Node::Number { token, value_type: ValueType::U64(NumberType::new()) };
        } else if token.token_type() == TokenType::String {
            self.advance(&mut res);

            node = Node::String { token };
        } else if token.token_type() == TokenType::Char {
            let v = self.cur_value();
            let actual_char = v.as_str().get_char(0);
            let pos_start = self.cur().pos_start().clone();
            let pos_end = self.cur().pos_start().clone();

            self.advance(&mut res);

            node = Node::Char { value: actual_char, pos_start, pos_end };
        } else if token.token_type() == TokenType::Identifier {
            return self.atom_ident();
        } else if token.token_type() == TokenType::Lparen {
            self.advance(&mut res);

            let expr = res.register_res(self.expression());
            if res.has_error() {
                return res;
            }

            if self.cur().token_type() != TokenType::Rparen {
                let pos_end = self.cur().pos_end().clone();
                res.failure(error::invalid_syntax_error(token.pos_start().clone(), pos_end, "Expected ')'!"));
                return res;
            }

            self.advance(&mut res);

            node = match expr {
                Some(n) => n,
                None => unreached(),
            };
        } else if token.token_type() == TokenType::Lsquare {
            return self.list_expr();
        } else if token.matches_keyword("while") {
            return self.while_expr();
        } else if token.matches_keyword("for") {
            return self.for_expr();
        } else if token.matches_keyword("if") {
            return self.if_expr();
        } else if token.matches_keyword("sizeof") {
            return self.sizeof_expr();
        } else {
            res.failure(error::invalid_syntax_error(token.pos_start().clone(), token.pos_end().clone(), "Expected atom!"));
            return res;
        }

        res.success(node);
        res
    }

    /// A name: the macro it names, an assignment `name = e` or `name op= e`,
    /// or an access of the variable.
    #[verifier::rlimit(30)]
    fn atom_ident(&mut self) -> (res: ParseResult)
        requires
            old(self).token_index <= old(self).tokens@.len(),
            p_atom_ident(old(self).ctx(), old(self).state()) is Some,
        ensures
            steps(*old(self), *final(self)),
            p_atom_ident(old(self).ctx(), old(self).state()) == Some((final(self).state(), pres(res))),
            pres_ok(res),
        decreases old(self).modules@.len(), old(self).tokens@.len() - old(self).token_index, 3int,
    {
        let mut res = ParseResult::new();

        let var_name = self.cur_value();
        let pos_start = self.cur().pos_start().clone();

        self.advance(&mut res);

        match self.find_macro(var_name.as_str()) {
            Some(i) => {
                res.success(self.macros[i].1.box_clone());
                return res;
            },
            None => {},
        }

        let t = self.cur().token_type();
        if self.cur().has_flag(TOKEN_FLAGS_IS_ASSIGN) && is_assign_operator(t) {
            let op_token = self.cur().clone();

            self.advance(&mut res);

            let assign_expr = res.register_res(self.expression());
            if res.has_error() {
                return res;
            }
            let assign_expr = match assign_expr {
                Some(n) => n,
                None => unreached(),
            };

            let pos_end = self.cur().pos_end().clone();
            let access = Node::VarAccess(VarAccessNode::new(var_name.clone(), pos_start.clone(), pos_end));
            let ghost access_view = access@;
            proof {
                assert(access_view == SpecNode::VarAccess { name: var_name@, pos_start: pos_start@, pos_end: pos_end@ });
            }
            let ghost right_view = assign_expr@;
            let value = Node::BinOp { left: Box::new(access), op: op_token, right: Box::new(assign_expr) };
            proof {
                assert(value@ == SpecNode::BinOp { left: Box::new(access_view), op: op_token@, right: Box::new(right_view) });
            }
            let assign = Node::VarAssign(VarAssignNode::new(var_name, value, pos_start));
            proof {
                assert(assign@ == SpecNode::VarAssign { name: var_name@, value: Box::new(value@), pos_start: pos_start@ });
            }
            res.success(assign);
            return res;
        }

        if t == TokenType::Eq {
            self.advance(&mut res);

            let expr = res.register_res(self.expression());
            if res.has_error() {
                return res;
            }
            let expr = match expr {
                Some(n) => n,
                None => unreached(),
            };

            res.success(Node::VarAssign(VarAssignNode::new(var_name, expr, pos_start)));
            return res;
        }

        let pos_end = self.cur().pos_end().clone();
        res.success(Node::VarAccess(VarAccessNode::new(var_name, pos_start, pos_end)));
        res
    }

    /// `[<type> ; size]` or `[<type> e, e, ...]`.
    fn list_expr(&mut self) -> (res: ParseResult)
        requires
            old(self).token_index <= old(self).tokens@.len(),
            p_list_expr(old(self).ctx(), old(self).state()) is Some,
        ensures
            steps(*old(self), *final(self)),
            p_list_expr(old(self).ctx(), old(self).state()) == Some((final(self).state(), pres(res))),
            pres_ok(res),
        decreases old(self).modules@.len(), old(self).tokens@.len() - old(self).token_index, 3int,
    {
        let mut res = ParseResult::new();
        let ghost c = self.ctx();
        let ghost s0 = self.state();
        let pos_start = self.cur().pos_start().clone();

        if !self.expect(&mut res, TokenType::Lsquare, "[") {
            return res;
        }

        self.advance(&mut res);

        if !self.expect(&mut res, TokenType::Lt, "<") {
            return res;
        }

        self.advance(&mut res);

        let tc = res.register_res(self.parse_intrinsic_type());
        if res.has_error() {
            return res;
        }
        let element_type = match tc {
            Some(n) => carried(n),
            None => unreached(),
        };

        if !self.expect(&mut res, TokenType::Gt, ">") {
            return res;
        }

        self.advance(&mut res);

        if self.cur().token_type() == TokenType::Newline {
            self.advance(&mut res);
            return self.list_sized(element_type, pos_start);
        }

        if self.cur().token_type() == TokenType::Rsquare {
            self.fail_here(&mut res, "Expected int or array element!");
            return res;
        }

        let mut elements: Vec<Node> = Vec::new();
        proof {
            assert(nodes_view(elements@) =~= Seq::<SpecNode>::empty());
        }

        loop
            invariant
                steps(*old(self), *self),
                c == self.ctx(),
                c == old(self).ctx(),
                s0 == old(self).state(),
                p_list_expr(c, s0) == p_list_elems(c, self.state(), nodes_view(elements@), element_type@, pos_start@),
                p_list_expr(c, s0) is Some,
                self.token_index > old(self).token_index,
                res@.error is None,
                res@.node is None,
                res@.to_reverse_count == 0,
            decreases self.tokens@.len() - self.token_index,
        {
            let expr = res.register_res(self.expression());
            if res.has_error() {
                return res;
            }
            let expr = match expr {
                Some(n) => n,
                None => unreached(),
            };

            let ghost before = elements@;
            elements.push(expr);
            proof {
                lemma_nodes_view_push(before, expr);
                crate::nodes::lemma_nodes_view(elements@);
            }

            if self.cur().token_type() != TokenType::Comma {
                if !self.expect(&mut res, TokenType::Rsquare, "]") {
                    return res;
                }

                self.advance(&mut res);

                let pos_end = self.cur().pos_end().clone();
                let length = elements.len();
                res.success(Node::List { length, elements, is_literal: true, element_type, pos_start, pos_end });
                return res;
            }

            self.advance(&mut res);
        }
    }

    /// `while condition { body }`.
    fn while_expr(&mut self) -> (res: ParseResult)
        requires
            old(self).token_index <= old(self).tokens@.len(),
            p_while(old(self).ctx(), old(self).state()) is Some,
        ensures
            steps(*old(self), *final(self)),
            p_while(old(self).ctx(), old(self).state()) == Some((final(self).state(), pres(res))),
            pres_ok(res),
        decreases old(self).modules@.len(), old(self).tokens@.len() - old(self).token_index, 3int,
    {
        let mut res = ParseResult::new();

        if !self.expect_keyword(&mut res, "while") {
            return res;
        }

        self.advance(&mut res);

        let condition = res.register_res(self.expression());
        if res.has_error() {
            return res;
        }
        let condition = match condition {
            Some(n) => n,
            None => unreached(),
        };

        let stmts = res.register_res(self.statements(false));
        if res.has_error() {
            return res;
        }
        let stmts = match stmts {
            Some(n) => n,
            None => unreached(),
        };

        res.success(Node::While(WhileNode::new(condition, stmts)));
        res
    }

    /// `for init; condition; next { body }`.
    fn for_expr(&mut self) -> (res: ParseResult)
        requires
            old(self).token_index <= old(self).tokens@.len(),
            p_for(old(self).ctx(), old(self).state()) is Some,
        ensures
            steps(*old(self), *final(self)),
            p_for(old(self).ctx(), old(self).state()) == Some((final(self).state(), pres(res))),
            pres_ok(res),
        decreases old(self).modules@.len(), old(self).tokens@.len() - old(self).token_index, 3int,
    {
        let mut res = ParseResult::new();

        if !self.expect_keyword(&mut res, "for") {
            return res;
        }

        self.advance(&mut res);

        let init_expr = res.register_res(self.statement(false));
        if res.has_error() {
            return res;
        }
        let init_expr = match init_expr {
            Some(n) => n,
            None => unreached(),
        };

        if !self.expect(&mut res, TokenType::Newline, ";") {
            return res;
        }

        self.advance(&mut res);

        let condition = res.register_res(self.expression());
        if res.has_error() {
            return res;
        }
        let condition = match condition {
            Some(n) => n,
            None => unreached(),
        };

        if !self.expect(&mut res, TokenType::Newline, ";") {
            return res;
        }

        self.advance(&mut res);

        let next_expr = res.register_res(self.expression());
        if res.has_error() {
            return res;
        }
        let next_expr = match next_expr {
            Some(n) => n,
            None => unreached(),
        };

        let statements = res.register_res(self.statements(false));
        if res.has_error() {
            return res;
        }
        let statements = match statements {
            Some(n) => n,
            None => unreached(),
        };

        res.success(Node::For {
            init: Box::new(init_expr),
            condition: Box::new(condition),
            next: Box::new(next_expr),
            body: Box::new(statements),
        });
        res
    }

    /// `if c { s } else if c { s } ... else { s }`.
    fn if_expr(&mut self) -> (res: ParseResult)
        requires
            old(self).token_index <= old(self).tokens@.len(),
            p_if(old(self).ctx(), old(self).state()) is Some,
        ensures
            steps(*old(self), *final(self)),
            p_if(old(self).ctx(), old(self).state()) == Some((final(self).state(), pres(res))),
            pres_ok(res),
        decreases old(self).modules@.len(), old(self).tokens@.len() - old(self).token_index, 3int,
    {
        let mut res = ParseResult::new();
        let ghost c = self.ctx();
        let ghost s0 = self.state();

        if !self.expect_keyword(&mut res, "if") {
            return res;
        }

        let mut cases: Vec<(Node, Node)> = Vec::new();
        let mut else_case: Option<Node> = None;
        proof {
            assert(cases_view(cases@) =~= Seq::<(SpecNode, SpecNode)>::empty());
        }

        while self.cur().matches_keyword("if")
            invariant
                steps(*old(self), *self),
                c == self.ctx(),
                c == old(self).ctx(),
                s0 == old(self).state(),
                p_if(c, s0) == p_if_loop(
                    c,
                    self.state(),
                    cases_view(cases@),
                    match else_case {
                        Some(e) => Some(e@),
                        None => None,
                    },
                ),
                p_if(c, s0) is Some,
                res@.error is None,
                res@.node is None,
                res@.to_reverse_count == 0,
            decreases self.tokens@.len() - self.token_index,
        {
            self.advance(&mut res);

            let condition = res.register_res(self.expression());
            if res.has_error() {
                return res;
            }
            let condition = match condition {
                Some(n) => n,
                None => unreached(),
            };

            let statements = res.register_res(self.statements(false));
            if res.has_error() {
                return res;
            }
            let statements = match statements {
                Some(n) => n,
                None => unreached(),
            };

            let ghost before = cases@;
            cases.push((condition, statements));
            proof {
                lemma_cases_view_push(before, (condition, statements));
            }

            if self.cur().matches_keyword("else") {
                self.advance(&mut res);

                if self.cur().matches_keyword("if") {
                    continue;
                }

                let statements = res.register_res(self.statements(false));
                if res.has_error() {
                    return res;
                }
                else_case = match statements {
                    Some(n) => Some(n),
                    None => unreached(),
                };
            }
        }

        let else_box = match else_case {
            Some(e) => Some(Box::new(e)),
            None => None,
        };
        res.success(Node::If { cases, else_case: else_box });
        res
    }

    /// `fun name(args): type`, then a newline for a declaration or the body
    /// of the function.
    fn function_def(&mut self) -> (res: ParseResult)
        requires
            old(self).token_index <= old(self).tokens@.len(),
            p_function_def(old(self).ctx(), old(self).state()) is Some,
        ensures
            steps(*old(self), *final(self)),
            p_function_def(old(self).ctx(), old(self).state()) == Some((final(self).state(), pres(res))),
            pres_ok(res),
        decreases old(self).modules@.len(), old(self).tokens@.len() - old(self).token_index, 3int,
    {
        let mut res = ParseResult::new();
        let pos_start = self.cur().pos_start().clone();

        if !self.expect_keyword(&mut res, "fun") {
            return res;
        }

        self.advance(&mut res);

        if !self.expect(&mut res, TokenType::Identifier, "function name") {
            return res;
        }

        let func_name = self.cur_value();

        self.advance(&mut res);

        if !self.expect(&mut res, TokenType::Lparen, "(") {
            return res;
        }

        self.advance(&mut res);

        let args: Vec<(String, ValueType)> = if self.cur().token_type() == TokenType::Identifier {
            match self.function_args(&mut res) {
                Some(a) => a,
                None => {
                    return res;
                },
            }
        } else {
            proof {
                assert(args_view(Seq::<(String, ValueType)>::empty()) =~= Seq::<(Seq<char>, SpecType)>::empty());
            }
            Vec::new()
        };

        if !self.expect(&mut res, TokenType::Rparen, ")") {
            return res;
        }

        self.advance(&mut res);

        if !self.expect(&mut res, TokenType::Colon, ":") {
            return res;
        }

        self.advance(&mut res);

        if !self.expect(&mut res, TokenType::Keyword, "type") {
            return res;
        }

        let tc = res.register_res(self.parse_intrinsic_type());
        if res.has_error() {
            return res;
        }
        let return_type = match tc {
            Some(n) => carried(n),
            None => unreached(),
        };

        if self.cur().token_type() == TokenType::Newline {
            let pos_end = self.cur().pos_end().clone();
            res.success(Node::FunctionDecl { name: func_name, args, return_type, pos_start, pos_end });
            return res;
        }

        let func_body = res.register_res(self.statements(false));
        if res.has_error() {
            return res;
        }
        let func_body = match func_body {
            Some(n) => n,
            None => unreached(),
        };

        res.success(Node::FunctionDef { name: func_name, args, return_type, body: Box::new(func_body), pos_start });
        res
    }

    /// A parser at the first of `tokens`, which must not be empty.
    pub fn new(
        tokens: Vec<Token>,
        include_paths: Vec<String>,
        macros: Vec<(String, Node)>,
        already_included: Vec<String>,
        modules: Vec<(String, Vec<Token>)>,
        file_ids: Vec<(String, String)>,
    ) -> (r: Self)
        requires
            tokens@.len() > 0,
        ensures
            r.tokens == tokens,
            r.token_index == 0,
            r.macros == macros,
            r.already_included == already_included,
            r.include_paths == include_paths,
            r.modules == modules,
            r.file_ids == file_ids,
    {
        Parser { tokens, token_index: 0, macros, already_included, include_paths, modules, file_ids }
    }

    /// The macros defined so far.
    pub fn macros(&self) -> (r: &Vec<(String, Node)>)
        ensures
            *r == self.macros,
    {
        &self.macros
    }

    /// The modules imported so far.
    pub fn already_included(&self) -> (r: &Vec<String>)
        ensures
            *r == self.already_included,
    {
        &self.already_included
    }
}



/// The token types that, flagged as an assignment, make `x op= e`.
fn is_assign_operator(t: TokenType) -> (r: bool)
    ensures
        r == is_assign_op(t),
{
    t == TokenType::Plus || t == TokenType::Minus || t == TokenType::Mul || t == TokenType::Div
        || t == TokenType::Modulo || t == TokenType::BitAnd || t == TokenType::BitOr || t == TokenType::BitXor
        || t == TokenType::BitShl || t == TokenType::BitShr
}

/// `ops` holds `t`.
fn contains_token_type(ops: &Vec<TokenType>, t: TokenType) -> (r: bool)
    ensures
        r == ops@.contains(t),
{
    let mut i: usize = 0;
    while i < ops.len()
        invariant
            i <= ops@.len(),
            forall|j: int| 0 <= j < i ==> #[trigger] ops@[j] != t,
        decreases ops@.len() - i,
    {
        if ops[i] == t {
            proof {
                assert(ops@[i as int] == t);
            }
            return true;
        }
        i = i + 1;
    }
    false
}

/// A copy of each token of `v`.
fn clone_tokens(v: &Vec<Token>) -> (r: Vec<Token>)
    ensures
        r@ == v@,
{
    let mut r: Vec<Token> = Vec::new();
    let mut i: usize = 0;
    while i < v.len()
        invariant
            i <= v@.len(),
            r@ == v@.take(i as int),
        decreases v@.len() - i,
    {
        r.push(v[i].clone());
        proof {
            assert(r@ =~= v@.take(i + 1));
        }
        i = i + 1;
    }
    proof {
        assert(v@.take(v@.len() as int) =~= v@);
    }
    r
}

/// A copy of each string of `v`.
fn clone_strings(v: &Vec<String>) -> (r: Vec<String>)
    ensures
        strings_view(r@) == strings_view(v@),
{
    let mut r: Vec<String> = Vec::new();
    let mut i: usize = 0;
    while i < v.len()
        invariant
            i <= v@.len(),
            r@.len() == i,
            forall|j: int| 0 <= j < i ==> #[trigger] r@[j]@ == v@[j]@,
        decreases v@.len() - i,
    {
        r.push(v[i].clone());
        i = i + 1;
    }
    proof {
        assert(strings_view(r@) =~= strings_view(v@));
    }
    r
}

/// A copy of each pair of strings of `v`.
fn clone_pairs(v: &Vec<(String, String)>) -> (r: Vec<(String, String)>)
    ensures
        pairs_view(r@) == pairs_view(v@),
{
    let mut r: Vec<(String, String)> = Vec::new();
    let mut i: usize = 0;
    while i < v.len()
        invariant
            i <= v@.len(),
            r@.len() == i,
            forall|j: int| 0 <= j < i ==> #[trigger] r@[j].0@ == v@[j].0@ && r@[j].1@ == v@[j].1@,
        decreases v@.len() - i,
    {
        r.push((v[i].0.clone(), v[i].1.clone()));
        i = i + 1;
    }
    proof {
        assert(pairs_view(r@) =~= pairs_view(v@));
    }
    r
}

/// A copy of the modules of `v` but the one at `k`.
fn modules_without(v: &Vec<(String, Vec<Token>)>, k: usize) -> (r: Vec<(String, Vec<Token>)>)
    requires
        k < v@.len(),
    ensures
        modules_view(r@) == modules_view(v@).remove(k as int),
{
    let ghost target = modules_view(v@).remove(k as int);
    let mut r: Vec<(String, Vec<Token>)> = Vec::new();
    let mut i: usize = 0;
    while i < v.len()
        invariant
            i <= v@.len(),
            k < v@.len(),
            target == modules_view(v@).remove(k as int),
            r@.len() == (if i <= k { i as int } else { i - 1 }),
            forall|j: int| 0 <= j < r@.len() ==> #[trigger] modules_view(r@)[j] == target[j],
        decreases v@.len() - i,
    {
        if i != k {
            let ghost before = r@;
            r.push((v[i].0.clone(), clone_tokens(&v[i].1)));
            proof {
                assert forall|j: int| 0 <= j < r@.len() implies #[trigger] modules_view(r@)[j] == target[j] by {
                    if j < before.len() {
                        assert(modules_view(r@)[j] == modules_view(before)[j]);
                    } else {
                        assert(modules_view(r@)[j] == (v@[i as int].0@, tokens_view(v@[i as int].1@)));
                    }
                }
            }
        }
        i = i + 1;
    }
    proof {
        assert(modules_view(r@) =~= target);
    }
    r
}

/// Some argument in `args` is called `name`.
fn has_arg_named(args: &Vec<(String, ValueType)>, name: &str) -> (r: bool)
    ensures
        r == has_arg(args_view(args@), name@),
{
    let mut i: usize = 0;
    while i < args.len()
        invariant
            i <= args@.len(),
            forall|j: int| 0 <= j < i ==> #[trigger] args@[j].0@ != name@,
        decreases args@.len() - i,
    {
        if str_eq(args[i].0.as_str(), name) {
            proof {
                assert(args_view(args@)[i as int].0 == name@);
            }
            return true;
        }
        i = i + 1;
    }
    proof {
        assert forall|j: int| 0 <= j < args_view(args@).len() implies #[trigger] args_view(args@)[j].0 != name@ by {
            assert(args_view(args@)[j].0 == args@[j].0@);
        }
    }
    false
}

} // verus!
