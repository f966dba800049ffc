//! The language the parser reads, as functions on the token sequence.
//!
//! Each function takes the tokens (and the modules that can be imported)
//! and a parser state, and gives the state after it and the node it read,
//! or the error where the input has a syntax error. The outer `None`
//! stands for inputs on which parsing cannot go on at all: a token read past
//! the end of the sequence, or a token without the value its kind carries.
use vstd::prelude::*;
use crate::error::{ErrorKind, SpecError};
use crate::paths::search_places;
use crate::nodes::SpecNode;
use crate::position::SpecPosition;
use crate::text::parse_unsigned;
use crate::token::{SpecToken, TokenType, TOKEN_FLAGS_IS_ASSIGN};
use crate::values::value_size::ValueSize;
use crate::values::value_type::SpecType;

verus! {

/// What the parser reads from: its tokens; the files that an `import` can
/// reach, each by its path and with its tokens; the directories searched
/// for them; and, for a path, the identity of the file there.
pub struct PCtx {
    pub tokens: Seq<SpecToken>,
    pub modules: Seq<(Seq<char>, Seq<SpecToken>)>,
    pub include_paths: Seq<Seq<char>>,
    pub file_ids: Seq<(Seq<char>, Seq<char>)>,
}

/// Where the parser is: the index of the current token, the macros defined
/// so far and the modules imported so far.
pub struct PState {
    pub idx: int,
    pub macros: Seq<(Seq<char>, SpecNode)>,
    pub included: Seq<Seq<char>>,
}

/// The result of a parsing function.
pub type PR = Option<(PState, Result<SpecNode, SpecError>)>;

/// The result of a function that reads a list of named types.
pub type PArgs = Option<(PState, Result<Seq<(Seq<char>, SpecType)>, SpecError>)>;

/// The result of a function that reads a list of nodes.
pub type PNodes = Option<(PState, Result<Seq<SpecNode>, SpecError>)>;

/// The current token can be read.
pub open spec fn rd(c: PCtx, s: PState) -> bool {
    0 <= s.idx < c.tokens.len()
}

/// The current token.
pub open spec fn tk(c: PCtx, s: PState) -> SpecToken {
    c.tokens[s.idx]
}

pub open spec fn ty(c: PCtx, s: PState) -> TokenType {
    tk(c, s).tok_type
}

pub open spec fn kw(c: PCtx, s: PState, k: Seq<char>) -> bool {
    tk(c, s).matches_keyword(k)
}

/// The state one token further.
pub open spec fn adv(s: PState) -> PState {
    PState { idx: s.idx + 1, ..s }
}

pub open spec fn fail(s: PState, e: SpecError) -> PR {
    Some((s, Err(e)))
}

pub open spec fn succ(s: PState, n: SpecNode) -> PR {
    Some((s, Ok(n)))
}

/// A syntax error at the current token.
pub open spec fn syntax_err(c: PCtx, s: PState, details: Seq<char>) -> SpecError {
    SpecError { kind: ErrorKind::InvalidSyntax, pos_start: tk(c, s).pos_start, pos_end: tk(c, s).pos_end, details, parent: None }
}

/// The error for a current token that is not of the type `t`.
pub open spec fn expect_err(c: PCtx, s: PState, repr: Seq<char>, t: TokenType) -> SpecError {
    syntax_err(c, s, "Expected token '"@ + repr + "' of type '"@ + t.spec_name() + "'!"@)
}

/// The error for a current token that is not the keyword `k`.
pub open spec fn keyword_err(c: PCtx, s: PState, k: Seq<char>) -> SpecError {
    syntax_err(c, s, "Expected keyword '"@ + k + "'!"@)
}

/// A syntax error at the current token caused by `parent`.
pub open spec fn wrap_err(c: PCtx, s: PState, details: Seq<char>, parent: SpecError) -> SpecError {
    SpecError {
        kind: ErrorKind::InvalidSyntax,
        pos_start: tk(c, s).pos_start,
        pos_end: tk(c, s).pos_end,
        details,
        parent: Some(Box::new(parent)),
    }
}

/// `s1` is at or after `s`, and not past the end.
pub open spec fn mono(c: PCtx, s: PState, s1: PState) -> bool {
    s.idx <= s1.idx <= c.tokens.len()
}

/// `r`, where it ends at or after `s`.
pub open spec fn step(c: PCtx, s: PState, r: PR) -> PR {
    match r {
        Some((s1, o)) => if mono(c, s, s1) {
            r
        } else {
            None
        },
        None => None,
    }
}

/// The place of the first macro called `name`, searching from `i` on.
pub open spec fn find_macro_from(ms: Seq<(Seq<char>, SpecNode)>, name: Seq<char>, i: int) -> Option<int>
    decreases ms.len() - i,
{
    if i < 0 || i >= ms.len() {
        None
    } else if ms[i].0 == name {
        Some(i)
    } else {
        find_macro_from(ms, name, i + 1)
    }
}

pub open spec fn find_macro(ms: Seq<(Seq<char>, SpecNode)>, name: Seq<char>) -> Option<int> {
    find_macro_from(ms, name, 0)
}

/// The macros with `name` defined as `body`, replacing an earlier
/// definition of it.
pub open spec fn macro_insert(ms: Seq<(Seq<char>, SpecNode)>, name: Seq<char>, body: SpecNode) -> Seq<(Seq<char>, SpecNode)> {
    match find_macro(ms, name) {
        Some(i) => ms.update(i, (name, body)),
        None => ms.push((name, body)),
    }
}

/// The place of the first module called `name`, searching from `i` on.
pub open spec fn find_module_from(mods: Seq<(Seq<char>, Seq<SpecToken>)>, name: Seq<char>, i: int) -> Option<int>
    decreases mods.len() - i,
{
    if i < 0 || i >= mods.len() {
        None
    } else if mods[i].0 == name {
        Some(i)
    } else {
        find_module_from(mods, name, i + 1)
    }
}

/// The first of `places`, from `i` on, that is the path of a module of the
/// table: that module's place in the table.
pub open spec fn find_place(mods: Seq<(Seq<char>, Seq<SpecToken>)>, places: Seq<Seq<char>>, i: int) -> Option<int>
    decreases places.len() - i,
{
    if i < 0 || i >= places.len() {
        None
    } else {
        match find_module_from(mods, places[i], 0) {
            Some(k) => Some(k),
            None => find_place(mods, places, i + 1),
        }
    }
}

/// The identity of the file at the path `p`, where the table has it.
pub open spec fn file_id(ids: Seq<(Seq<char>, Seq<char>)>, p: Seq<char>, i: int) -> Option<Seq<char>>
    decreases ids.len() - i,
{
    if i < 0 || i >= ids.len() {
        None
    } else if ids[i].0 == p {
        Some(ids[i].1)
    } else {
        file_id(ids, p, i + 1)
    }
}

/// Whether the paths `a` and `b` lead to the same file. Where the identity
/// of either is not known, they count as the same.
pub open spec fn same_file(ids: Seq<(Seq<char>, Seq<char>)>, a: Seq<char>, b: Seq<char>) -> bool {
    match (file_id(ids, a, 0), file_id(ids, b, 0)) {
        (Some(x), Some(y)) => x == y,
        _ => true,
    }
}

/// Whether one of the paths in `included` leads to the same file as `p`.
pub open spec fn imported_before(ids: Seq<(Seq<char>, Seq<char>)>, included: Seq<Seq<char>>, p: Seq<char>) -> bool {
    exists|j: int| 0 <= j < included.len() && same_file(ids, #[trigger] included[j], p)
}

/// Some argument in `args` is called `name`.
pub open spec fn has_arg(args: Seq<(Seq<char>, SpecType)>, name: Seq<char>) -> bool {
    exists|i: int| 0 <= i < args.len() && #[trigger] args[i].0 == name
}

/// The type a type keyword names.
pub open spec fn intrinsic_base(v: Seq<char>) -> Option<SpecType> {
    if v == "u64"@ {
        Some(SpecType::U64)
    } else if v == "u32"@ {
        Some(SpecType::U32)
    } else if v == "u16"@ {
        Some(SpecType::U16)
    } else if v == "u8"@ {
        Some(SpecType::U8)
    } else if v == "string"@ {
        Some(SpecType::String)
    } else if v == "bool"@ {
        Some(SpecType::Bool)
    } else if v == "char"@ {
        Some(SpecType::Char)
    } else if v == "void"@ {
        Some(SpecType::Void)
    } else {
        None
    }
}

/// The operators of the comparison level.
pub open spec fn comp_ops() -> Seq<TokenType> {
    seq![TokenType::Ee, TokenType::Ne, TokenType::Gt, TokenType::Lt, TokenType::Gte, TokenType::Lte, TokenType::PointerAssign]
}

/// The token types that, flagged as an assignment, make `x op= e`.
pub open spec fn is_assign_op(t: TokenType) -> bool {
    t == TokenType::Plus || t == TokenType::Minus || t == TokenType::Mul || t == TokenType::Div
        || t == TokenType::Modulo || t == TokenType::BitAnd || t == TokenType::BitOr || t == TokenType::BitXor
        || t == TokenType::BitShl || t == TokenType::BitShr
}

/// The operand size that a byte count names.
pub open spec fn size_of_bytes(b: nat) -> ValueSize {
    if b == 1 {
        ValueSize::Byte
    } else if b == 2 {
        ValueSize::Word
    } else if b == 4 {
        ValueSize::Dword
    } else {
        ValueSize::Qword
    }
}

/// The levels of binary operators, from the loosest to the tightest.
#[derive(Debug, PartialEq, Eq, Structural, Copy, Clone)]
pub enum BinOpFunction {
    Arith,
    Comp,
    Term,
    Factor,
    Call,
}

/// The rank of the function that reads the operands of a level, used to
/// show that parsing ends.
pub open spec fn bin_rank(f: BinOpFunction) -> int {
    match f {
        BinOpFunction::Call => 5,
        BinOpFunction::Factor => 9,
        BinOpFunction::Term => 13,
        BinOpFunction::Arith => 17,
        BinOpFunction::Comp => 21,
    }
}

// ----- Helpers outside the recursion -----

/// Skips newline tokens.
pub open spec fn skip_newlines(c: PCtx, s: PState) -> Option<PState>
    decreases c.tokens.len() - s.idx,
{
    if !rd(c, s) {
        None
    } else if ty(c, s) == TokenType::Newline {
        skip_newlines(c, adv(s))
    } else {
        Some(s)
    }
}

/// The `*` and `*mut` that follow a type, each making a pointer to what is
/// before it.
pub open spec fn p_ptrs(c: PCtx, s: PState, t: SpecType) -> PR
    decreases c.tokens.len() - s.idx,
{
    if !rd(c, s) {
        None
    } else if ty(c, s) == TokenType::Mul {
        let s1 = adv(s);
        if !rd(c, s1) {
            None
        } else if kw(c, s1, "mut"@) {
            p_ptrs(c, adv(s1), SpecType::Pointer { pointee: Box::new(t), is_mutable: true })
        } else {
            p_ptrs(c, s1, SpecType::Pointer { pointee: Box::new(t), is_mutable: false })
        }
    } else {
        succ(s, SpecNode::TypeCarrier { carried_type: t })
    }
}

/// A type: a type keyword, or `struct` and a name, then pointer stars.
pub open spec fn p_type(c: PCtx, s: PState) -> PR {
    if !rd(c, s) {
        None
    } else if ty(c, s) != TokenType::Keyword {
        fail(s, expect_err(c, s, "intrinsic type"@, TokenType::Keyword))
    } else {
        match tk(c, s).tok_value {
            None => None,
            Some(v) => if v == "struct"@ {
                let s1 = adv(s);
                if !rd(c, s1) {
                    None
                } else if ty(c, s1) != TokenType::Identifier {
                    fail(s1, expect_err(c, s1, "struct name"@, TokenType::Identifier))
                } else {
                    match tk(c, s1).tok_value {
                        None => None,
                        Some(name) => p_ptrs(c, adv(s1), SpecType::Struct { name }),
                    }
                }
            } else {
                match intrinsic_base(v) {
                    None => fail(s, syntax_err(c, s, "Expected intrinsic type!"@)),
                    Some(t) => p_ptrs(c, adv(s), t),
                }
            },
        }
    }
}

/// The arguments of a function definition, from the name of one of them:
/// `name: type`, separated by commas.
pub open spec fn p_fn_args(c: PCtx, s: PState, args: Seq<(Seq<char>, SpecType)>) -> PArgs
    decreases c.tokens.len() - s.idx,
{
    if !rd(c, s) {
        None
    } else {
        match tk(c, s).tok_value {
            None => Some((s, Err(syntax_err(c, s, "Expected token to have value!"@)))),
            Some(name) => if has_arg(args, name) {
                Some((s, Err(syntax_err(c, s, "Argument name '"@ + name + "' was already declared!"@))))
            } else {
                let s1 = adv(s);
                if !rd(c, s1) {
                    None
                } else if ty(c, s1) != TokenType::Colon {
                    Some((s1, Err(expect_err(c, s1, ":"@, TokenType::Colon))))
                } else {
                    let s2 = adv(s1);
                    if !rd(c, s2) {
                        None
                    } else if ty(c, s2) != TokenType::Keyword {
                        Some((s2, Err(expect_err(c, s2, "type"@, TokenType::Keyword))))
                    } else {
                        match p_type(c, s2) {
                            None => None,
                            Some((s3, o)) => match o {
                                Err(e) => Some((s3, Err(e))),
                                Ok(SpecNode::TypeCarrier { carried_type }) => {
                                    let args2 = args.push((name, carried_type));
                                    if !mono(c, s2, s3) || !rd(c, s3) {
                                        None
                                    } else if ty(c, s3) == TokenType::Comma {
                                        p_fn_args(c, adv(s3), args2)
                                    } else {
                                        Some((s3, Ok(args2)))
                                    }
                                },
                                Ok(_) => None,
                            },
                        }
                    }
                }
            },
        }
    }
}

/// The fields of a structure, from the name of one of them, up to and past
/// the closing `}`.
pub open spec fn p_struct_fields(
    c: PCtx,
    s: PState,
    fields: Seq<(Seq<char>, SpecType)>,
    name: Seq<char>,
    pos_start: SpecPosition,
) -> PR
    decreases c.tokens.len() - s.idx,
{
    if !rd(c, s) {
        None
    } else if ty(c, s) != TokenType::Identifier {
        fail(s, expect_err(c, s, "name of field"@, TokenType::Identifier))
    } else {
        match tk(c, s).tok_value {
            None => None,
            Some(field_name) => {
                let s1 = adv(s);
                if !rd(c, s1) {
                    None
                } else if ty(c, s1) != TokenType::Colon {
                    fail(s1, expect_err(c, s1, ":"@, TokenType::Colon))
                } else {
                    let s2 = adv(s1);
                    match p_type(c, s2) {
                        None => None,
                        Some((s3, o)) => match o {
                            Err(e) => fail(s3, e),
                            Ok(SpecNode::TypeCarrier { carried_type }) => {
                                let fs = fields.push((field_name, carried_type));
                                if !mono(c, s2, s3) || !rd(c, s3) {
                                    None
                                } else if ty(c, s3) == TokenType::Comma {
                                    p_struct_fields(c, adv(s3), fs, name, pos_start)
                                } else if ty(c, s3) != TokenType::Rcurly {
                                    fail(s3, expect_err(c, s3, "}"@, TokenType::Rcurly))
                                } else {
                                    let s4 = adv(s3);
                                    if !rd(c, s4) {
                                        None
                                    } else {
                                        succ(s4, SpecNode::StructDef { name, fields: fs, pos_start, pos_end: tk(c, s4).pos_end })
                                    }
                                }
                            },
                            Ok(_) => None,
                        },
                    }
                }
            },
        }
    }
}

/// `struct name { fields }`, from the keyword.
pub open spec fn p_stmt_struct(c: PCtx, s: PState, pos_start: SpecPosition) -> PR {
    let s1 = adv(s);
    if !rd(c, s1) {
        None
    } else if ty(c, s1) != TokenType::Identifier {
        fail(s1, expect_err(c, s1, "name of structure"@, TokenType::Identifier))
    } else {
        match tk(c, s1).tok_value {
            None => None,
            Some(name) => {
                let s2 = adv(s1);
                if !rd(c, s2) {
                    None
                } else if ty(c, s2) != TokenType::Lcurly {
                    fail(s2, expect_err(c, s2, "{"@, TokenType::Lcurly))
                } else {
                    p_struct_fields(c, adv(s2), Seq::empty(), name, pos_start)
                }
            },
        }
    }
}

/// `asm [ "code" ]`, from the keyword.
pub open spec fn p_stmt_asm(c: PCtx, s: PState, pos_start: SpecPosition) -> PR {
    let s1 = adv(s);
    if !rd(c, s1) {
        None
    } else if ty(c, s1) != TokenType::Lsquare {
        fail(s1, expect_err(c, s1, "["@, TokenType::Lsquare))
    } else {
        let s2 = adv(s1);
        if !rd(c, s2) {
            None
        } else if ty(c, s2) != TokenType::String {
            fail(s2, expect_err(c, s2, "assembly code"@, TokenType::String))
        } else {
            match tk(c, s2).tok_value {
                None => None,
                Some(code) => {
                    let s3 = adv(s2);
                    if !rd(c, s3) {
                        None
                    } else if ty(c, s3) != TokenType::Rsquare {
                        fail(s3, expect_err(c, s3, "]"@, TokenType::Rsquare))
                    } else {
                        let s4 = adv(s3);
                        if !rd(c, s4) {
                            None
                        } else {
                            succ(s4, SpecNode::Assembly { code, pos_start, pos_end: tk(c, s4).pos_end })
                        }
                    }
                }
            }
        }
    }
}

// ----- The recursive descent -----

/// A whole token sequence: a block, then the end of the file.
pub open spec fn p_parse(c: PCtx, s: PState) -> PR
    decreases c.modules.len(), c.tokens.len() - s.idx, 30int,
{
    match step(c, s, p_statements(c, s, true)) {
        None => None,
        Some((s1, o)) => match o {
            Err(e) => fail(s1, e),
            Ok(n) => if !rd(c, s1) {
                None
            } else if ty(c, s1) != TokenType::Eof {
                fail(s1, syntax_err(c, s1, "Expected end of file!"@))
            } else {
                succ(s1, n)
            },
        },
    }
}

/// `{ statement; statement; ... }`.
pub open spec fn p_statements(c: PCtx, s: PState, top: bool) -> PR
    decreases c.modules.len(), c.tokens.len() - s.idx, 27int,
{
    if !rd(c, s) {
        None
    } else if ty(c, s) != TokenType::Lcurly {
        fail(s, expect_err(c, s, "{"@, TokenType::Lcurly))
    } else {
        let s1 = adv(s);
        if !rd(c, s1) {
            None
        } else {
            let pos_start = tk(c, s1).pos_start;
            match skip_newlines(c, s1) {
                None => None,
                Some(s2) => {
                    proof {
                        lemma_skip_newlines(c, s1);
                    }
                    match step(c, s2, p_statement(c, s2, top)) {
                        None => None,
                        Some((s3, o)) => match o {
                            Err(e) => fail(s3, e),
                            Ok(first) => if !rd(c, s3) {
                                None
                            } else if ty(c, s3) != TokenType::Newline {
                                fail(s3, expect_err(c, s3, ";"@, TokenType::Newline))
                            } else {
                                p_stmts_loop(c, adv(s3), top, seq![first], pos_start)
                            },
                        },
                    }
                },
            }
        }
    }
}

/// The statements of a block after its first one, up to and past the `}`.
pub open spec fn p_stmts_loop(c: PCtx, s: PState, top: bool, acc: Seq<SpecNode>, pos_start: SpecPosition) -> PR
    decreases c.modules.len(), c.tokens.len() - s.idx, 29int,
{
    if !rd(c, s) {
        None
    } else if ty(c, s) != TokenType::Eof && ty(c, s) != TokenType::Rcurly {
        match step(c, s, p_statement(c, s, top)) {
            None => None,
            Some((s1, o)) => match o {
                Err(e) => fail(s1, e),
                Ok(n) => if !rd(c, s1) {
                    None
                } else if ty(c, s1) != TokenType::Newline {
                    fail(s1, expect_err(c, s1, ";"@, TokenType::Newline))
                } else {
                    p_stmts_loop(c, adv(s1), top, acc.push(n), pos_start)
                },
            },
        }
    } else {
        let s1 = adv(s);
        if !rd(c, s1) {
            None
        } else {
            succ(s1, SpecNode::Statements { statements: acc, pos_start, pos_end: tk(c, s1).pos_end })
        }
    }
}

/// One statement: the definitions allowed at the top level, or, inside a
/// function, a block, a jump, inline assembly or an expression.
pub open spec fn p_statement(c: PCtx, s: PState, top: bool) -> PR
    decreases c.modules.len(), c.tokens.len() - s.idx, 28int,
{
    if !rd(c, s) {
        None
    } else {
        let pos_start = tk(c, s).pos_start;
        if top {
            if kw(c, s, "fun"@) {
                p_function_def(c, s)
            } else if kw(c, s, "const"@) {
                p_stmt_const(c, s)
            } else if kw(c, s, "struct"@) {
                p_stmt_struct(c, s, pos_start)
            } else if kw(c, s, "import"@) {
                p_stmt_import(c, s)
            } else if kw(c, s, "macro"@) {
                p_stmt_macro(c, s)
            } else if kw(c, s, "static"@) {
                p_stmt_static(c, s, pos_start)
            } else {
                fail(s, syntax_err(c, s, "Expected statement or expression!"@))
            }
        } else {
            if ty(c, s) == TokenType::Lcurly {
                p_statements(c, s, false)
            } else if kw(c, s, "return"@) {
                p_stmt_return(c, s, pos_start)
            } else if kw(c, s, "continue"@) {
                let s1 = adv(s);
                if !rd(c, s1) {
                    None
                } else {
                    succ(s1, SpecNode::Continue { pos_start, pos_end: tk(c, s1).pos_end })
                }
            } else if kw(c, s, "break"@) {
                let s1 = adv(s);
                if !rd(c, s1) {
                    None
                } else {
                    succ(s1, SpecNode::Break { pos_start, pos_end: tk(c, s1).pos_end })
                }
            } else if kw(c, s, "asm"@) {
                p_stmt_asm(c, s, pos_start)
            } else {
                match step(c, s, p_expression(c, s)) {
                    None => None,
                    Some((s1, o)) => match o {
                        Err(e) => if !rd(c, s1) {
                            None
                        } else {
                            fail(s1, wrap_err(c, s1, "Expected non top level statement or expression!"@, e))
                        },
                        Ok(n) => succ(s1, n),
                    },
                }
            }
        }
    }
}

/// `const name: type = value`, from the keyword.
pub open spec fn p_stmt_const(c: PCtx, s: PState) -> PR
    decreases c.modules.len(), c.tokens.len() - s.idx, 26int,
{
    if !rd(c, s) {
        None
    } else {
        let pos_start = tk(c, s).pos_start;
        let s1 = adv(s);
        if !rd(c, s1) {
            None
        } else if ty(c, s1) != TokenType::Identifier {
            fail(s1, expect_err(c, s1, "name of constant"@, TokenType::Identifier))
        } else {
            match tk(c, s1).tok_value {
                None => None,
                Some(name) => {
                    let s2 = adv(s1);
                    if !rd(c, s2) {
                        None
                    } else if ty(c, s2) != TokenType::Colon {
                        fail(s2, expect_err(c, s2, ":"@, TokenType::Colon))
                    } else {
                        let s3 = adv(s2);
                        match p_type(c, s3) {
                            None => None,
                            Some((s4, o)) => match o {
                                Err(e) => fail(s4, e),
                                Ok(SpecNode::TypeCarrier { carried_type }) => if !mono(c, s3, s4) || !rd(c, s4) {
                                    None
                                } else if ty(c, s4) != TokenType::Eq {
                                    fail(s4, expect_err(c, s4, "="@, TokenType::Eq))
                                } else {
                                    let s5 = adv(s4);
                                    match step(c, s5, p_expression(c, s5)) {
                                        None => None,
                                        Some((s6, o2)) => match o2 {
                                            Err(e) => fail(s6, e),
                                            Ok(value) => succ(
                                                s6,
                                                SpecNode::ConstDef { name, value: Box::new(value), value_type: carried_type, pos_start },
                                            ),
                                        },
                                    }
                                },
                                Ok(_) => None,
                            },
                        }
                    }
                },
            }
        }
    }
}

/// `import "module"`, from the keyword: the statements of the module, read
/// with the macros and the imports so far, or nothing where the module was
/// imported before.
pub open spec fn p_stmt_import(c: PCtx, s: PState) -> PR
    decreases c.modules.len(), c.tokens.len() - s.idx, 26int,
{
    let s1 = adv(s);
    if !rd(c, s1) {
        None
    } else if ty(c, s1) != TokenType::String {
        fail(s1, expect_err(c, s1, "name of module"@, TokenType::String))
    } else {
        match tk(c, s1).tok_value {
            None => None,
            Some(module_name) => match search_places(tk(c, s1).pos_start.file_path, module_name, c.include_paths) {
                None => None,
                Some(places) => {
                    let s2 = adv(s1);
                    match find_place(c.modules, places, 0) {
                        None => if !rd(c, s2) {
                            None
                        } else {
                            fail(s2, syntax_err(c, s2, "Module '"@ + module_name + "' not found!"@))
                        },
                        Some(k) => if imported_before(c.file_ids, s2.included, c.modules[k].0) {
                            if !rd(c, s2) {
                                None
                            } else {
                                succ(s2, SpecNode::Ignored { pos_start: tk(c, s2).pos_start, pos_end: tk(c, s2).pos_end })
                            }
                        } else if c.modules[k].1.len() == 0 {
                            None
                        } else {
                            proof {
                                lemma_find_place(c.modules, places, 0);
                            }
                            let c2 = PCtx {
                                tokens: c.modules[k].1,
                                modules: c.modules.remove(k),
                                include_paths: c.include_paths,
                                file_ids: c.file_ids,
                            };
                            let t0 = PState { idx: 0, macros: s2.macros, included: s2.included };
                            match p_parse(c2, t0) {
                                None => None,
                                Some((t1, o)) => {
                                    let s3 = PState { idx: s2.idx, macros: t1.macros, included: t1.included };
                                    match o {
                                        Err(e) => if !rd(c, s3) {
                                            None
                                        } else {
                                            fail(s3, SpecError { kind: ErrorKind::Semantic, pos_start: tk(c, s).pos_start, pos_end: tk(c, s3).pos_end, details: "Failed to import module '"@ + module_name + "'!"@, parent: Some(Box::new(e)) })
                                        },
                                        Ok(root) => succ(
                                            PState { included: s3.included.push(c.modules[k].0), ..s3 },
                                            SpecNode::Import { node: Box::new(root) },
                                        ),
                                    }
                                },
                            }
                        },
                    }
                },
            },
        }
    }
}

/// `macro name expression`, from the keyword: defines the macro.
pub open spec fn p_stmt_macro(c: PCtx, s: PState) -> PR
    decreases c.modules.len(), c.tokens.len() - s.idx, 26int,
{
    if !rd(c, s) {
        None
    } else {
        let pos_start = tk(c, s).pos_start;
        let s1 = adv(s);
        if !rd(c, s1) {
            None
        } else if ty(c, s1) != TokenType::Identifier {
            fail(s1, expect_err(c, s1, "name of macro"@, TokenType::Identifier))
        } else {
            match tk(c, s1).tok_value {
                None => None,
                Some(name) => {
                    let s2 = adv(s1);
                    match step(c, s2, p_expression(c, s2)) {
                        None => None,
                        Some((s3, o)) => match o {
                            Err(e) => fail(s3, e),
                            Ok(body) => {
                                let s4 = PState { macros: macro_insert(s3.macros, name, body), ..s3 };
                                if !rd(c, s4) {
                                    None
                                } else {
                                    succ(s4, SpecNode::MacroDef { pos_start, pos_end: tk(c, s4).pos_end })
                                }
                            },
                        },
                    }
                },
            }
        }
    }
}

/// `static [mut] name: type = value`, from the keyword.
pub open spec fn p_stmt_static(c: PCtx, s: PState, pos_start: SpecPosition) -> PR
    decreases c.modules.len(), c.tokens.len() - s.idx, 26int,
{
    let s1 = adv(s);
    if !rd(c, s1) {
        None
    } else {
        let is_mutable = kw(c, s1, "mut"@);
        let s2 = if is_mutable { adv(s1) } else { s1 };
        if !rd(c, s2) {
            None
        } else if ty(c, s2) != TokenType::Identifier {
            fail(s2, expect_err(c, s2, "name of static"@, TokenType::Identifier))
        } else {
            match tk(c, s2).tok_value {
                None => None,
                Some(name) => {
                    let s3 = adv(s2);
                    if !rd(c, s3) {
                        None
                    } else if ty(c, s3) != TokenType::Colon {
                        fail(s3, expect_err(c, s3, ":"@, TokenType::Colon))
                    } else {
                        let s4 = adv(s3);
                        match p_type(c, s4) {
                            None => None,
                            Some((s5, o)) => match o {
                                Err(e) => fail(s5, e),
                                Ok(SpecNode::TypeCarrier { carried_type }) => if !mono(c, s4, s5) || !rd(c, s5) {
                                    None
                                } else if ty(c, s5) != TokenType::Eq {
                                    fail(s5, expect_err(c, s5, "="@, TokenType::Eq))
                                } else {
                                    let s6 = adv(s5);
                                    match step(c, s6, p_expression(c, s6)) {
                                        None => None,
                                        Some((s7, o2)) => match o2 {
                                            Err(e) => fail(s7, e),
                                            Ok(value) => succ(
                                                s7,
                                                SpecNode::StaticDef {
                                                    name,
                                                    value_type: carried_type,
                                                    value: Box::new(value),
                                                    is_mutable,
                                                    pos_start,
                                                },
                                            ),
                                        },
                                    }
                                },
                                Ok(_) => None,
                            },
                        }
                    }
                },
            }
        }
    }
}

/// `return [expression]`, from the keyword. Where no expression can be
/// read, the return has no value and the parser stays where the attempt
/// stopped.
pub open spec fn p_stmt_return(c: PCtx, s: PState, pos_start: SpecPosition) -> PR
    decreases c.modules.len(), c.tokens.len() - s.idx, 26int,
{
    let s1 = adv(s);
    if !rd(c, s) {
        None
    } else {
        match step(c, s1, p_expression(c, s1)) {
        None => None,
        Some((s2, o)) => if !rd(c, s2) {
            None
        } else {
            succ(
                s2,
                SpecNode::Return {
                    value: match o {
                        Ok(n) => Some(Box::new(n)),
                        Err(_) => None,
                    },
                    pos_start,
                    pos_end: tk(c, s2).pos_end,
                },
            )
        },
        }
    }
}

/// An expression: a variable declaration, a system call, or operators of
/// all levels, optionally followed by a read of some bytes.
pub open spec fn p_expression(c: PCtx, s: PState) -> PR
    decreases c.modules.len(), c.tokens.len() - s.idx, 25int,
{
    if !rd(c, s) {
        None
    } else {
        let pos_start = tk(c, s).pos_start;
        if kw(c, s, "let"@) {
            p_expr_let(c, s, pos_start)
        } else if kw(c, s, "syscall"@) {
            p_expr_syscall(c, s, pos_start)
        } else {
            match step(c, s, p_bin(c, s, BinOpFunction::Comp, seq![TokenType::And, TokenType::Or], BinOpFunction::Comp)) {
                None => None,
                Some((s1, o)) => match o {
                    Err(e) => if !rd(c, s1) {
                        None
                    } else {
                        fail(s1, wrap_err(c, s1, "Expected comparison expression!"@, e))
                    },
                    Ok(n) => if !rd(c, s1) {
                        None
                    } else if ty(c, s1) == TokenType::ReadBytes {
                        match tk(c, s1).tok_value {
                            None => None,
                            Some(v) => match parse_unsigned(v) {
                                None => None,
                                Some(b) => if b > u64::MAX {
                                    None
                                } else if b != 1 && b != 2 && b != 4 && b != 8 {
                                    fail(s1, syntax_err(c, s1, "Invalid number of bytes!"@))
                                } else {
                                    let s2 = adv(s1);
                                    if !rd(c, s2) {
                                        None
                                    } else {
                                        succ(s2, SpecNode::ReadBytes { node: Box::new(n), bytes: size_of_bytes(b), pos_end: tk(c, s2).pos_end })
                                    }
                                },
                            },
                        }
                    } else {
                        succ(s1, n)
                    },
                },
            }
        }
    }
}

/// `let [mut] name: type = value`, from the keyword.
pub open spec fn p_expr_let(c: PCtx, s: PState, pos_start: SpecPosition) -> PR
    decreases c.modules.len(), c.tokens.len() - s.idx, 24int,
{
    let s1 = adv(s);
    if !rd(c, s1) {
        None
    } else {
        let is_mutable = kw(c, s1, "mut"@);
        let s2 = if is_mutable { adv(s1) } else { s1 };
        if !rd(c, s2) {
            None
        } else if ty(c, s2) != TokenType::Identifier {
            fail(s2, expect_err(c, s2, "name of variable"@, TokenType::Identifier))
        } else {
            match tk(c, s2).tok_value {
                None => fail(s2, syntax_err(c, s2, "Expected token to have value!"@)),
                Some(name) => {
                    let s3 = adv(s2);
                    if !rd(c, s3) {
                        None
                    } else if ty(c, s3) != TokenType::Colon {
                        fail(s3, expect_err(c, s3, ":"@, TokenType::Colon))
                    } else {
                        let s4 = adv(s3);
                        if !rd(c, s4) {
                            None
                        } else if ty(c, s4) != TokenType::Keyword {
                            fail(s4, expect_err(c, s4, "type"@, TokenType::Keyword))
                        } else {
                            match p_type(c, s4) {
                                None => None,
                                Some((s5, o)) => match o {
                                    Err(e) => fail(s5, e),
                                    Ok(SpecNode::TypeCarrier { carried_type }) => if !mono(c, s4, s5) || !rd(c, s5) {
                                        None
                                    } else if ty(c, s5) != TokenType::Eq {
                                        fail(s5, expect_err(c, s5, "="@, TokenType::Eq))
                                    } else {
                                        let s6 = adv(s5);
                                        match step(c, s6, p_expression(c, s6)) {
                                            None => None,
                                            Some((s7, o2)) => match o2 {
                                                Err(e) => fail(s7, e),
                                                Ok(value) => succ(
                                                    s7,
                                                    SpecNode::VarDeclaration {
                                                        name,
                                                        var_type: carried_type,
                                                        value: Box::new(value),
                                                        is_mutable,
                                                        pos_start,
                                                    },
                                                ),
                                            },
                                        }
                                    },
                                    Ok(_) => None,
                                },
                            }
                        }
                    }
                },
            }
        }
    }
}

/// `syscall [a, b, c, d]`, from the keyword.
pub open spec fn p_expr_syscall(c: PCtx, s: PState, pos_start: SpecPosition) -> PR
    decreases c.modules.len(), c.tokens.len() - s.idx, 24int,
{
    let s1 = adv(s);
    if !rd(c, s1) {
        None
    } else if ty(c, s1) != TokenType::Lsquare {
        fail(s1, expect_err(c, s1, "["@, TokenType::Lsquare))
    } else {
        let s2 = adv(s1);
        match step(c, s2, p_expression(c, s2)) {
            None => None,
            Some((s3, o)) => match o {
                Err(e) => fail(s3, e),
                Ok(first) => p_syscall_rest(c, s3, seq![first], 3, pos_start),
            },
        }
    }
}

/// The `k` arguments of a system call that follow, each after a comma, and
/// the closing `]`.
pub open spec fn p_syscall_rest(c: PCtx, s: PState, args: Seq<SpecNode>, k: nat, pos_start: SpecPosition) -> PR
    decreases c.modules.len(), c.tokens.len() - s.idx, 24int,
{
    if !rd(c, s) {
        None
    } else if k == 0 {
        if ty(c, s) != TokenType::Rsquare {
            fail(s, expect_err(c, s, "]"@, TokenType::Rsquare))
        } else {
            let s1 = adv(s);
            if !rd(c, s1) {
                None
            } else {
                succ(s1, SpecNode::Syscall { args, pos_start, pos_end: tk(c, s1).pos_end })
            }
        }
    } else if ty(c, s) != TokenType::Comma {
        fail(s, expect_err(c, s, ","@, TokenType::Comma))
    } else {
        let s1 = adv(s);
        match step(c, s1, p_expression(c, s1)) {
            None => None,
            Some((s2, o)) => match o {
                Err(e) => fail(s2, e),
                Ok(a) => p_syscall_rest(c, s2, args.push(a), (k - 1) as nat, pos_start),
            },
        }
    }
}

/// The operands of the level `f`.
pub open spec fn p_eval(c: PCtx, s: PState, f: BinOpFunction) -> PR
    decreases c.modules.len(), c.tokens.len() - s.idx, bin_rank(f) + 1,
{
    match f {
        BinOpFunction::Arith => p_arith(c, s),
        BinOpFunction::Comp => p_comp(c, s),
        BinOpFunction::Term => p_term(c, s),
        BinOpFunction::Factor => p_factor(c, s),
        BinOpFunction::Call => p_call(c, s),
    }
}

/// Operands of the level `fa`, joined from the left by the operators `ops`.
pub open spec fn p_bin(c: PCtx, s: PState, fa: BinOpFunction, ops: Seq<TokenType>, fb: BinOpFunction) -> PR
    decreases c.modules.len(), c.tokens.len() - s.idx, bin_rank(fa) + 3,
{
    match step(c, s, p_eval(c, s, fa)) {
        None => None,
        Some((s1, o)) => match o {
            Err(e) => fail(s1, e),
            Ok(left) => p_bin_loop(c, s1, fa, ops, fb, left),
        },
    }
}

/// The operators and operands that follow `left`.
pub open spec fn p_bin_loop(
    c: PCtx,
    s: PState,
    fa: BinOpFunction,
    ops: Seq<TokenType>,
    fb: BinOpFunction,
    left: SpecNode,
) -> PR
    decreases c.modules.len(), c.tokens.len() - s.idx, bin_rank(fa) + 2,
{
    if !rd(c, s) {
        None
    } else if ops.contains(ty(c, s)) {
        let op = tk(c, s);
        let s1 = adv(s);
        match step(c, s1, p_eval(c, s1, fb)) {
            None => None,
            Some((s2, o)) => match o {
                Err(e) => fail(s2, e),
                Ok(right) => p_bin_loop(
                    c,
                    s2,
                    fa,
                    ops,
                    fb,
                    SpecNode::BinOp { left: Box::new(left), op, right: Box::new(right) },
                ),
            },
        }
    } else {
        succ(s, left)
    }
}

/// Comparisons.
pub open spec fn p_comp(c: PCtx, s: PState) -> PR
    decreases c.modules.len(), c.tokens.len() - s.idx, 21int,
{
    match step(c, s, p_bin(c, s, BinOpFunction::Arith, comp_ops(), BinOpFunction::Arith)) {
        None => None,
        Some((s1, o)) => match o {
            Err(e) => if !rd(c, s1) {
                None
            } else {
                fail(s1, wrap_err(c, s1, "Expected arithmetic expression!"@, e))
            },
            Ok(n) => succ(s1, n),
        },
    }
}

/// Sums and differences.
pub open spec fn p_arith(c: PCtx, s: PState) -> PR
    decreases c.modules.len(), c.tokens.len() - s.idx, 17int,
{
    p_bin(c, s, BinOpFunction::Term, seq![TokenType::Plus, TokenType::Minus], BinOpFunction::Term)
}

/// Products, quotients and remainders.
pub open spec fn p_term(c: PCtx, s: PState) -> PR
    decreases c.modules.len(), c.tokens.len() - s.idx, 13int,
{
    p_bin(c, s, BinOpFunction::Factor, seq![TokenType::Mul, TokenType::Div, TokenType::Modulo], BinOpFunction::Factor)
}

/// A unary operation, a dereference, or bit operations on calls.
pub open spec fn p_factor(c: PCtx, s: PState) -> PR
    decreases c.modules.len(), c.tokens.len() - s.idx, 9int,
{
    if !rd(c, s) {
        None
    } else if ty(c, s) == TokenType::Plus || ty(c, s) == TokenType::Minus || ty(c, s) == TokenType::Not
        || ty(c, s) == TokenType::BitNot {
        let op = tk(c, s);
        let s1 = adv(s);
        match step(c, s1, p_factor(c, s1)) {
            None => None,
            Some((s2, o)) => match o {
                Err(e) => fail(s2, e),
                Ok(f) => succ(s2, SpecNode::UnaryOp { op, node: Box::new(f) }),
            },
        }
    } else if ty(c, s) == TokenType::Mul {
        let s1 = adv(s);
        match step(c, s1, p_factor(c, s1)) {
            None => None,
            Some((s2, o)) => match o {
                Err(e) => fail(s2, e),
                Ok(f) => succ(s2, SpecNode::Dereference { node: Box::new(f) }),
            },
        }
    } else {
        p_bin(
            c,
            s,
            BinOpFunction::Call,
            seq![TokenType::BitAnd, TokenType::BitOr, TokenType::BitXor, TokenType::BitShl, TokenType::BitShr],
            BinOpFunction::Call,
        )
    }
}

/// An atom, optionally called with arguments, then indexed, accessed or
/// cast.
pub open spec fn p_call(c: PCtx, s: PState) -> PR
    decreases c.modules.len(), c.tokens.len() - s.idx, 5int,
{
    match step(c, s, p_atom(c, s)) {
        None => None,
        Some((s1, o)) => match o {
            Err(e) => fail(s1, e),
            Ok(atom) => if !rd(c, s1) {
                None
            } else if ty(c, s1) == TokenType::Lparen {
                let s2 = adv(s1);
                match p_call_args(c, s2) {
                    None => None,
                    Some((s3, oa)) => if !mono(c, s, s3) {
                        None
                    } else {
                        match oa {
                            Err(e) => fail(s3, e),
                            Ok(args) => match atom {
                                SpecNode::VarAccess { name, pos_start, .. } => p_postfix(
                                    c,
                                    s3,
                                    SpecNode::Call { name, args, pos_start },
                                ),
                                _ => None,
                            },
                        }
                    },
                }
            } else {
                p_postfix(c, s1, atom)
            },
        },
    }
}

/// The arguments of a call, after the `(`, up to and past the `)`.
pub open spec fn p_call_args(c: PCtx, s: PState) -> PNodes
    decreases c.modules.len(), c.tokens.len() - s.idx, 26int,
{
    if !rd(c, s) {
        None
    } else if ty(c, s) == TokenType::Rparen {
        Some((adv(s), Ok(Seq::empty())))
    } else {
        match step(c, s, p_expression(c, s)) {
            None => None,
            Some((s1, o)) => match o {
                Err(e) => if !rd(c, s1) {
                    None
                } else {
                    Some((s1, Err(wrap_err(c, s1, "Expected expression as function call argument!"@, e))))
                },
                Ok(a) => p_args_loop(c, s1, seq![a]),
            },
        }
    }
}

/// The arguments after the first, each after a comma, and the `)`.
pub open spec fn p_args_loop(c: PCtx, s: PState, args: Seq<SpecNode>) -> PNodes
    decreases c.modules.len(), c.tokens.len() - s.idx, 4int,
{
    if !rd(c, s) {
        None
    } else if ty(c, s) == TokenType::Comma {
        let s1 = adv(s);
        match step(c, s1, p_expression(c, s1)) {
            None => None,
            Some((s2, o)) => match o {
                Err(e) => if !rd(c, s2) {
                    None
                } else {
                    Some((s2, Err(wrap_err(c, s2, "Expected expression as function call argument!"@, e))))
                },
                Ok(a) => p_args_loop(c, s2, args.push(a)),
            },
        }
    } else if ty(c, s) != TokenType::Rparen {
        Some((s, Err(expect_err(c, s, ")"@, TokenType::Rparen))))
    } else {
        Some((adv(s), Ok(args)))
    }
}

/// Indexing `[e]` and field accesses `.name` after `atom`, then an optional
/// cast `as type`.
pub open spec fn p_postfix(c: PCtx, s: PState, atom: SpecNode) -> PR
    decreases c.modules.len(), c.tokens.len() - s.idx, 4int,
{
    if !rd(c, s) {
        None
    } else if ty(c, s) == TokenType::Lsquare {
        let s_pos_start = tk(c, s).pos_start;
        let s1 = adv(s);
        match step(c, s1, p_expression(c, s1)) {
            None => None,
            Some((s2, o)) => match o {
                Err(e) => fail(s2, e),
                Ok(e) => if !rd(c, s2) {
                    None
                } else if ty(c, s2) != TokenType::Rsquare {
                    fail(s2, expect_err(c, s2, "]"@, TokenType::Rsquare))
                } else {
                    let op = SpecToken {
                        tok_type: TokenType::Offset,
                        tok_value: None,
                        pos_start: s_pos_start,
                        pos_end: tk(c, s2).pos_end,
                        flags: 0,
                    };
                    p_postfix(c, adv(s2), SpecNode::BinOp { left: Box::new(atom), op, right: Box::new(e) })
                },
            },
        }
    } else if ty(c, s) == TokenType::Dot {
        let s1 = adv(s);
        if !rd(c, s1) {
            None
        } else if ty(c, s1) != TokenType::Identifier {
            fail(s1, expect_err(c, s1, "accessor"@, TokenType::Identifier))
        } else {
            match tk(c, s1).tok_value {
                None => fail(s1, syntax_err(c, s1, "Expected token to have value!"@)),
                Some(accessor) => p_postfix(
                    c,
                    adv(s1),
                    SpecNode::Accessor { node: Box::new(atom), accessor, pos_end: tk(c, s1).pos_end },
                ),
            }
        }
    } else if kw(c, s, "as"@) {
        let s1 = adv(s);
        match p_type(c, s1) {
            None => None,
            Some((s2, o)) => match o {
                Err(e) => fail(s2, e),
                Ok(SpecNode::TypeCarrier { carried_type }) => if !rd(c, s2) {
                    None
                } else {
                    succ(s2, SpecNode::Cast { node: Box::new(atom), cast_type: carried_type, pos_end: tk(c, s2).pos_end })
                },
                Ok(_) => None,
            },
        }
    } else {
        succ(s, atom)
    }
}

/// The smallest expressions: literals, names (or the macros they name),
/// assignments, parenthesised expressions, lists, loops, conditionals and
/// `sizeof`.
pub open spec fn p_atom(c: PCtx, s: PState) -> PR
    decreases c.modules.len(), c.tokens.len() - s.idx, 4int,
{
    if !rd(c, s) {
        None
    } else {
        let token = tk(c, s);
        if token.tok_type == TokenType::U64 {
            succ(adv(s), SpecNode::Number { token, value_type: SpecType::U64 })
        } else if token.tok_type == TokenType::String {
            succ(adv(s), SpecNode::String { token })
        } else if token.tok_type == TokenType::Char {
            match token.tok_value {
                None => None,
                Some(v) => if v.len() == 0 {
                    None
                } else {
                    succ(adv(s), SpecNode::Char { value: v[0], pos_start: token.pos_start, pos_end: token.pos_start })
                },
            }
        } else if token.tok_type == TokenType::Identifier {
            p_atom_ident(c, s)
        } else if token.tok_type == TokenType::Lparen {
            let s1 = adv(s);
            match step(c, s1, p_expression(c, s1)) {
                None => None,
                Some((s2, o)) => match o {
                    Err(e) => fail(s2, e),
                    Ok(e) => if !rd(c, s2) {
                        None
                    } else if ty(c, s2) != TokenType::Rparen {
                        fail(s2, SpecError { kind: ErrorKind::InvalidSyntax, pos_start: token.pos_start, pos_end: tk(c, s2).pos_end, details: "Expected ')'!"@, parent: None })
                    } else {
                        succ(adv(s2), e)
                    },
                },
            }
        } else if token.tok_type == TokenType::Lsquare {
            p_list_expr(c, s)
        } else if token.matches_keyword("while"@) {
            p_while(c, s)
        } else if token.matches_keyword("for"@) {
            p_for(c, s)
        } else if token.matches_keyword("if"@) {
            p_if(c, s)
        } else if token.matches_keyword("sizeof"@) {
            p_sizeof(c, s)
        } else {
            fail(s, syntax_err(c, s, "Expected atom!"@))
        }
    }
}

/// `sizeof [type]`, from the keyword.
pub open spec fn p_sizeof(c: PCtx, s: PState) -> PR {
    if !rd(c, s) {
        None
    } else {
        let pos_start = tk(c, s).pos_start;
        let s1 = adv(s);
        if !rd(c, s1) {
            None
        } else if ty(c, s1) != TokenType::Lsquare {
            fail(s1, expect_err(c, s1, "["@, TokenType::Lsquare))
        } else {
            let s2 = adv(s1);
            match p_type(c, s2) {
                None => None,
                Some((s3, o)) => match o {
                    Err(e) => fail(s3, e),
                    Ok(SpecNode::TypeCarrier { carried_type }) => if !rd(c, s3) {
                        None
                    } else if ty(c, s3) != TokenType::Rsquare {
                        fail(s3, expect_err(c, s3, "]"@, TokenType::Rsquare))
                    } else {
                        let s4 = adv(s3);
                        if !rd(c, s4) {
                            None
                        } else {
                            succ(s4, SpecNode::SizeOf { value_type: carried_type, pos_start, pos_end: tk(c, s4).pos_end })
                        }
                    },
                    Ok(_) => None,
                },
            }
        }
    }
}

/// A name: the macro it names, an assignment `name = e` or `name op= e`, or
/// an access of the variable.
pub open spec fn p_atom_ident(c: PCtx, s: PState) -> PR
    decreases c.modules.len(), c.tokens.len() - s.idx, 3int,
{
    if !rd(c, s) {
        None
    } else {
        match tk(c, s).tok_value {
            None => None,
            Some(var_name) => {
                let pos_start = tk(c, s).pos_start;
                let s1 = adv(s);
                match find_macro(s1.macros, var_name) {
                    Some(i) => succ(s1, s1.macros[i].1),
                    None => if !rd(c, s1) {
                        None
                    } else if tk(c, s1).has_flag(TOKEN_FLAGS_IS_ASSIGN) && is_assign_op(ty(c, s1)) {
                        let op = tk(c, s1);
                        let s2 = adv(s1);
                        match step(c, s2, p_expression(c, s2)) {
                            None => None,
                            Some((s3, o)) => match o {
                                Err(e) => fail(s3, e),
                                Ok(e) => if !rd(c, s3) {
                                    None
                                } else {
                                    succ(
                                        s3,
                                        SpecNode::VarAssign {
                                            name: var_name,
                                            value: Box::new(
                                                SpecNode::BinOp {
                                                    left: Box::new(
                                                        SpecNode::VarAccess { name: var_name, pos_start, pos_end: tk(c, s3).pos_end },
                                                    ),
                                                    op,
                                                    right: Box::new(e),
                                                },
                                            ),
                                            pos_start,
                                        },
                                    )
                                },
                            },
                        }
                    } else if ty(c, s1) == TokenType::Eq {
                        let s2 = adv(s1);
                        match step(c, s2, p_expression(c, s2)) {
                            None => None,
                            Some((s3, o)) => match o {
                                Err(e) => fail(s3, e),
                                Ok(e) => succ(s3, SpecNode::VarAssign { name: var_name, value: Box::new(e), pos_start }),
                            },
                        }
                    } else {
                        succ(s1, SpecNode::VarAccess { name: var_name, pos_start, pos_end: tk(c, s1).pos_end })
                    },
                }
            },
        }
    }
}

/// `[<type> ; size]` for a list of a given size, or `[<type> e, e, ...]` for
/// a list literal.
pub open spec fn p_list_expr(c: PCtx, s: PState) -> PR
    decreases c.modules.len(), c.tokens.len() - s.idx, 3int,
{
    if !rd(c, s) {
        None
    } else {
        let pos_start = tk(c, s).pos_start;
        if ty(c, s) != TokenType::Lsquare {
            fail(s, expect_err(c, s, "["@, TokenType::Lsquare))
        } else {
            let s1 = adv(s);
            if !rd(c, s1) {
                None
            } else if ty(c, s1) != TokenType::Lt {
                fail(s1, expect_err(c, s1, "<"@, TokenType::Lt))
            } else {
                let s2 = adv(s1);
                match p_type(c, s2) {
                    None => None,
                    Some((s3, o)) => match o {
                        Err(e) => fail(s3, e),
                        Ok(SpecNode::TypeCarrier { carried_type }) => if !mono(c, s2, s3) || !rd(c, s3) {
                            None
                        } else if ty(c, s3) != TokenType::Gt {
                            fail(s3, expect_err(c, s3, ">"@, TokenType::Gt))
                        } else {
                            let s4 = adv(s3);
                            if !rd(c, s4) {
                                None
                            } else if ty(c, s4) == TokenType::Newline {
                                p_list_sized(c, adv(s4), carried_type, pos_start)
                            } else if ty(c, s4) == TokenType::Rsquare {
                                fail(s4, syntax_err(c, s4, "Expected int or array element!"@))
                            } else {
                                p_list_elems(c, s4, Seq::empty(), carried_type, pos_start)
                            }
                        },
                        Ok(_) => None,
                    },
                }
            }
        }
    }
}

/// The size of a list of a given size, and the `]`.
pub open spec fn p_list_sized(c: PCtx, s: PState, element_type: SpecType, pos_start: SpecPosition) -> PR {
    if !rd(c, s) {
        None
    } else if ty(c, s) != TokenType::U64 {
        fail(s, expect_err(c, s, "size"@, TokenType::U64))
    } else {
        match tk(c, s).tok_value {
            None => None,
            Some(v) => match parse_unsigned(v) {
                None => None,
                Some(length) => if length > usize::MAX {
                    None
                } else {
                    let s1 = adv(s);
                    if !rd(c, s1) {
                        None
                    } else if ty(c, s1) != TokenType::Rsquare {
                        fail(s1, expect_err(c, s1, "]"@, TokenType::Rsquare))
                    } else {
                        let s2 = adv(s1);
                        if !rd(c, s2) {
                            None
                        } else {
                            succ(
                                s2,
                                SpecNode::List {
                                    length: length as usize,
                                    elements: Seq::empty(),
                                    is_literal: false,
                                    element_type,
                                    pos_start,
                                    pos_end: tk(c, s2).pos_end,
                                },
                            )
                        }
                    }
                },
            },
        }
    }
}

/// The elements of a list literal, separated by commas, and the `]`.
pub open spec fn p_list_elems(
    c: PCtx,
    s: PState,
    elems: Seq<SpecNode>,
    element_type: SpecType,
    pos_start: SpecPosition,
) -> PR
    decreases c.modules.len(), c.tokens.len() - s.idx, 26int,
{
    match step(c, s, p_expression(c, s)) {
        None => None,
        Some((s1, o)) => match o {
            Err(e) => fail(s1, e),
            Ok(e) => {
                let es = elems.push(e);
                if !rd(c, s1) {
                    None
                } else if ty(c, s1) == TokenType::Comma {
                    p_list_elems(c, adv(s1), es, element_type, pos_start)
                } else if ty(c, s1) != TokenType::Rsquare {
                    fail(s1, expect_err(c, s1, "]"@, TokenType::Rsquare))
                } else {
                    let s2 = adv(s1);
                    if !rd(c, s2) {
                        None
                    } else {
                        succ(
                            s2,
                            SpecNode::List {
                                length: es.len() as usize,
                                elements: es,
                                is_literal: true,
                                element_type,
                                pos_start,
                                pos_end: tk(c, s2).pos_end,
                            },
                        )
                    }
                }
            },
        },
    }
}

/// `while condition { body }`.
pub open spec fn p_while(c: PCtx, s: PState) -> PR
    decreases c.modules.len(), c.tokens.len() - s.idx, 3int,
{
    if !rd(c, s) {
        None
    } else if !kw(c, s, "while"@) {
        fail(s, keyword_err(c, s, "while"@))
    } else {
        let s1 = adv(s);
        match step(c, s1, p_expression(c, s1)) {
            None => None,
            Some((s2, o)) => match o {
                Err(e) => fail(s2, e),
                Ok(condition) => match step(c, s2, p_statements(c, s2, false)) {
                    None => None,
                    Some((s3, o2)) => match o2 {
                        Err(e) => fail(s3, e),
                        Ok(body) => succ(s3, SpecNode::While { condition: Box::new(condition), body: Box::new(body) }),
                    },
                },
            },
        }
    }
}

/// `for init; condition; next { body }`.
pub open spec fn p_for(c: PCtx, s: PState) -> PR
    decreases c.modules.len(), c.tokens.len() - s.idx, 3int,
{
    if !rd(c, s) {
        None
    } else if !kw(c, s, "for"@) {
        fail(s, keyword_err(c, s, "for"@))
    } else {
        let s1 = adv(s);
        match step(c, s1, p_statement(c, s1, false)) {
            None => None,
            Some((s2, o)) => match o {
                Err(e) => fail(s2, e),
                Ok(init) => if !rd(c, s2) {
                    None
                } else if ty(c, s2) != TokenType::Newline {
                    fail(s2, expect_err(c, s2, ";"@, TokenType::Newline))
                } else {
                    let s3 = adv(s2);
                    match step(c, s3, p_expression(c, s3)) {
                        None => None,
                        Some((s4, o2)) => match o2 {
                            Err(e) => fail(s4, e),
                            Ok(condition) => if !rd(c, s4) {
                                None
                            } else if ty(c, s4) != TokenType::Newline {
                                fail(s4, expect_err(c, s4, ";"@, TokenType::Newline))
                            } else {
                                let s5 = adv(s4);
                                match step(c, s5, p_expression(c, s5)) {
                                    None => None,
                                    Some((s6, o3)) => match o3 {
                                        Err(e) => fail(s6, e),
                                        Ok(next) => match step(c, s6, p_statements(c, s6, false)) {
                                            None => None,
                                            Some((s7, o4)) => match o4 {
                                                Err(e) => fail(s7, e),
                                                Ok(body) => succ(
                                                    s7,
                                                    SpecNode::For {
                                                        init: Box::new(init),
                                                        condition: Box::new(condition),
                                                        next: Box::new(next),
                                                        body: Box::new(body),
                                                    },
                                                ),
                                            },
                                        },
                                    },
                                }
                            },
                        },
                    }
                },
            },
        }
    }
}

/// `if c { s } else if c { s } ... else { s }`.
pub open spec fn p_if(c: PCtx, s: PState) -> PR
    decreases c.modules.len(), c.tokens.len() - s.idx, 3int,
{
    if !rd(c, s) {
        None
    } else if !kw(c, s, "if"@) {
        fail(s, keyword_err(c, s, "if"@))
    } else {
        p_if_loop(c, s, Seq::empty(), None)
    }
}

/// The cases of an `if`, each read while the current token is `if`.
pub open spec fn p_if_loop(
    c: PCtx,
    s: PState,
    cases: Seq<(SpecNode, SpecNode)>,
    else_case: Option<SpecNode>,
) -> PR
    decreases c.modules.len(), c.tokens.len() - s.idx, 2int,
{
    if !rd(c, s) {
        None
    } else if kw(c, s, "if"@) {
        let s1 = adv(s);
        match step(c, s1, p_expression(c, s1)) {
            None => None,
            Some((s2, o)) => match o {
                Err(e) => fail(s2, e),
                Ok(condition) => match step(c, s2, p_statements(c, s2, false)) {
                    None => None,
                    Some((s3, o2)) => match o2 {
                        Err(e) => fail(s3, e),
                        Ok(statements) => {
                            let cs = cases.push((condition, statements));
                            if !rd(c, s3) {
                                None
                            } else if kw(c, s3, "else"@) {
                                let s4 = adv(s3);
                                if !rd(c, s4) {
                                    None
                                } else if kw(c, s4, "if"@) {
                                    p_if_loop(c, s4, cs, else_case)
                                } else {
                                    match step(c, s4, p_statements(c, s4, false)) {
                                        None => None,
                                        Some((s5, o3)) => match o3 {
                                            Err(e) => fail(s5, e),
                                            Ok(e) => p_if_loop(c, s5, cs, Some(e)),
                                        },
                                    }
                                }
                            } else {
                                p_if_loop(c, s3, cs, else_case)
                            }
                        },
                    },
                },
            },
        }
    } else {
        succ(
            s,
            SpecNode::If {
                cases,
                else_case: match else_case {
                    Some(e) => Some(Box::new(e)),
                    None => None,
                },
            },
        )
    }
}

/// `fun name(args): type` followed by a newline (a declaration) or by the
/// body of the function.
pub open spec fn p_function_def(c: PCtx, s: PState) -> PR
    decreases c.modules.len(), c.tokens.len() - s.idx, 3int,
{
    if !rd(c, s) {
        None
    } else {
        let pos_start = tk(c, s).pos_start;
        if !kw(c, s, "fun"@) {
            fail(s, keyword_err(c, s, "fun"@))
        } else {
            let s1 = adv(s);
            if !rd(c, s1) {
                None
            } else if ty(c, s1) != TokenType::Identifier {
                fail(s1, expect_err(c, s1, "function name"@, TokenType::Identifier))
            } else {
                match tk(c, s1).tok_value {
                    None => None,
                    Some(name) => {
                        let s2 = adv(s1);
                        if !rd(c, s2) {
                            None
                        } else if ty(c, s2) != TokenType::Lparen {
                            fail(s2, expect_err(c, s2, "("@, TokenType::Lparen))
                        } else {
                            let s3 = adv(s2);
                            if !rd(c, s3) {
                                None
                            } else {
                                let ra = if ty(c, s3) == TokenType::Identifier {
                                    p_fn_args(c, s3, Seq::empty())
                                } else {
                                    Some((s3, Ok(Seq::empty())))
                                };
                                match ra {
                                    None => None,
                                    Some((s4, oa)) => match oa {
                                        Err(e) => fail(s4, e),
                                        Ok(args) => if !mono(c, s3, s4) {
                                            None
                                        } else {
                                            p_fn_rest(c, s4, name, args, pos_start)
                                        },
                                    },
                                }
                            }
                        }
                    },
                }
            }
        }
    }
}

/// The rest of a function definition, from the `)` after its arguments.
pub open spec fn p_fn_rest(
    c: PCtx,
    s: PState,
    name: Seq<char>,
    args: Seq<(Seq<char>, SpecType)>,
    pos_start: SpecPosition,
) -> PR
    decreases c.modules.len(), c.tokens.len() - s.idx, 2int,
{
    if !rd(c, s) {
        None
    } else if ty(c, s) != TokenType::Rparen {
        fail(s, expect_err(c, s, ")"@, TokenType::Rparen))
    } else {
        let s1 = adv(s);
        if !rd(c, s1) {
            None
        } else if ty(c, s1) != TokenType::Colon {
            fail(s1, expect_err(c, s1, ":"@, TokenType::Colon))
        } else {
            let s2 = adv(s1);
            if !rd(c, s2) {
                None
            } else if ty(c, s2) != TokenType::Keyword {
                fail(s2, expect_err(c, s2, "type"@, TokenType::Keyword))
            } else {
                match p_type(c, s2) {
                    None => None,
                    Some((s3, o)) => match o {
                        Err(e) => fail(s3, e),
                        Ok(SpecNode::TypeCarrier { carried_type }) => if !mono(c, s2, s3) || !rd(c, s3) {
                            None
                        } else if ty(c, s3) == TokenType::Newline {
                            succ(
                                s3,
                                SpecNode::FunctionDecl {
                                    name,
                                    args,
                                    return_type: carried_type,
                                    pos_start,
                                    pos_end: tk(c, s3).pos_end,
                                },
                            )
                        } else {
                            match step(c, s3, p_statements(c, s3, false)) {
                                None => None,
                                Some((s4, o2)) => match o2 {
                                    Err(e) => fail(s4, e),
                                    Ok(body) => succ(
                                        s4,
                                        SpecNode::FunctionDef {
                                            name,
                                            args,
                                            return_type: carried_type,
                                            body: Box::new(body),
                                            pos_start,
                                        },
                                    ),
                                },
                            }
                        },
                        Ok(_) => None,
                    },
                }
            }
        }
    }
}

// ----- Facts about the helpers -----

/// A module found is one of the modules.
pub proof fn lemma_find_module(mods: Seq<(Seq<char>, Seq<SpecToken>)>, name: Seq<char>, i: int)
    ensures
        match find_module_from(mods, name, i) {
            Some(k) => i <= k < mods.len() && mods[k].0 == name,
            None => true,
        },
    decreases mods.len() - i,
{
    if 0 <= i < mods.len() && mods[i].0 != name {
        lemma_find_module(mods, name, i + 1);
    }
}

/// The module that a search finds is one of the table.
pub proof fn lemma_find_place(mods: Seq<(Seq<char>, Seq<SpecToken>)>, places: Seq<Seq<char>>, i: int)
    ensures
        match find_place(mods, places, i) {
            Some(k) => 0 <= k < mods.len(),
            None => true,
        },
    decreases places.len() - i,
{
    if 0 <= i < places.len() {
        lemma_find_module(mods, places[i], 0);
        lemma_find_place(mods, places, i + 1);
    }
}

/// Skipping newlines goes forward, and not past the end.
pub proof fn lemma_skip_newlines(c: PCtx, s: PState)
    ensures
        match skip_newlines(c, s) {
            Some(s1) => s.idx <= s1.idx < c.tokens.len() && s1.macros == s.macros && s1.included == s.included,
            None => true,
        },
    decreases c.tokens.len() - s.idx,
{
    if rd(c, s) && ty(c, s) == TokenType::Newline {
        lemma_skip_newlines(c, adv(s));
    }
}

// ----- Laws -----

/// `n` is `left` with zero or more operations applied after it on the
/// left: each step is a binary operation, with an operator from `ops`,
/// whose left operand is the step before.
pub open spec fn left_nested(n: SpecNode, left: SpecNode, ops: Seq<TokenType>) -> bool
    decreases n,
{
    if n == left {
        true
    } else {
        match n {
            SpecNode::BinOp { left: l, op, .. } => ops.contains(op.tok_type) && left_nested(*l, left, ops),
            _ => false,
        }
    }
}

proof fn lemma_left_nested_trans(n: SpecNode, m: SpecNode, left: SpecNode, ops: Seq<TokenType>)
    requires
        left_nested(n, m, ops),
        left_nested(m, left, ops),
    ensures
        left_nested(n, left, ops),
    decreases n,
{
    if n != m {
        match n {
            SpecNode::BinOp { left: l, .. } => lemma_left_nested_trans(*l, m, left, ops),
            _ => {},
        }
    }
}

/// `n` is `first` followed, from the left, by zero or more operations,
/// each with an operator of `ops` and, as its right operand, a node that the
/// level `f` reads at some place of the tokens.
pub open spec fn operand_chain(c: PCtx, n: SpecNode, first: SpecNode, ops: Seq<TokenType>, f: BinOpFunction) -> bool
    decreases n,
{
    if n == first {
        true
    } else {
        match n {
            SpecNode::BinOp { left, op, right } => {
                &&& ops.contains(op.tok_type)
                &&& exists|t: PState| #[trigger] p_eval(c, t, f) matches Some((_, Ok(r))) && r == *right
                &&& operand_chain(c, *left, first, ops, f)
            },
            _ => false,
        }
    }
}

proof fn lemma_operand_chain_trans(
    c: PCtx,
    n: SpecNode,
    m: SpecNode,
    first: SpecNode,
    ops: Seq<TokenType>,
    f: BinOpFunction,
)
    requires
        operand_chain(c, n, m, ops, f),
        operand_chain(c, m, first, ops, f),
    ensures
        operand_chain(c, n, first, ops, f),
    decreases n,
{
    if n != m && n != first {
        match n {
            SpecNode::BinOp { left, .. } => lemma_operand_chain_trans(c, *left, m, first, ops, f),
            _ => {},
        }
    }
}

/// What a level reads after its first operand `left` is `left` followed by
/// operations with its operators and, on their right, what the next level
/// reads.
proof fn lemma_bin_loop_chain(
    c: PCtx,
    s: PState,
    fa: BinOpFunction,
    ops: Seq<TokenType>,
    fb: BinOpFunction,
    left: SpecNode,
)
    ensures
        match p_bin_loop(c, s, fa, ops, fb, left) {
            Some((_s2, Ok(n))) => operand_chain(c, n, left, ops, fb),
            _ => true,
        },
    decreases c.tokens.len() - s.idx,
{
    if rd(c, s) && ops.contains(ty(c, s)) {
        let op = tk(c, s);
        let s1 = adv(s);
        match step(c, s1, p_eval(c, s1, fb)) {
            Some((s2, Ok(right))) => {
                let m = SpecNode::BinOp { left: Box::new(left), op, right: Box::new(right) };
                lemma_bin_loop_chain(c, s2, fa, ops, fb, m);
                match p_bin_loop(c, s2, fa, ops, fb, m) {
                    Some((_s3, Ok(n))) => {
                        assert(p_eval(c, s1, fb) matches Some((_, Ok(r))) && r == right);
                        assert(operand_chain(c, left, left, ops, fb));
                        assert(operand_chain(c, m, left, ops, fb));
                        lemma_operand_chain_trans(c, n, m, left, ops, fb);
                    },
                    _ => {},
                }
            },
            _ => {},
        }
    }
}

/// Sums are made of products: what the arithmetic level reads is a product
/// (what the term level reads from the same place) followed, from the left,
/// by `+` and `-` operations whose right operands are again products. So a
/// `*`, `/` or `%` operation is never above a `+` or `-` one: `1 + 2 * 3`
/// is `1 + (2 * 3)`.
pub proof fn law_sum_of_products(c: PCtx, s: PState)
    ensures
        match p_arith(c, s) {
            Some((_s2, Ok(n))) => p_term(c, s) matches Some((_, Ok(first))) && operand_chain(
                c,
                n,
                first,
                seq![TokenType::Plus, TokenType::Minus],
                BinOpFunction::Term,
            ),
            _ => true,
        },
{
    match step(c, s, p_eval(c, s, BinOpFunction::Term)) {
        Some((s1, Ok(left))) => {
            lemma_bin_loop_chain(c, s1, BinOpFunction::Term, seq![TokenType::Plus, TokenType::Minus], BinOpFunction::Term, left);
        },
        _ => {},
    }
}

/// Comparisons are made of sums: what the comparison level reads is a sum
/// followed, from the left, by comparison operations (`==`, `!=`, `>`, `<`,
/// `>=`, `<=`, and the pointer assignment `<-`) whose right operands are
/// again sums. So `1 + 2 < 3` is `(1 + 2) < 3`.
pub proof fn law_comparison_of_sums(c: PCtx, s: PState)
    ensures
        match p_comp(c, s) {
            Some((_s2, Ok(n))) => p_arith(c, s) matches Some((_, Ok(first))) && operand_chain(
                c,
                n,
                first,
                seq![
                    TokenType::Ee,
                    TokenType::Ne,
                    TokenType::Gt,
                    TokenType::Lt,
                    TokenType::Gte,
                    TokenType::Lte,
                    TokenType::PointerAssign,
                ],
                BinOpFunction::Arith,
            ),
            _ => true,
        },
{
    let ops = seq![
        TokenType::Ee,
        TokenType::Ne,
        TokenType::Gt,
        TokenType::Lt,
        TokenType::Gte,
        TokenType::Lte,
        TokenType::PointerAssign,
    ];
    assert(comp_ops() =~= ops);
    match step(c, s, p_eval(c, s, BinOpFunction::Arith)) {
        Some((s1, Ok(left))) => {
            lemma_bin_loop_chain(c, s1, BinOpFunction::Arith, ops, BinOpFunction::Arith, left);
        },
        _ => {},
    }
}

/// Products are made of factors: what the term level reads is a factor
/// followed, from the left, by `*`, `/` and `%` operations whose right
/// operands are again factors.
pub proof fn law_product_of_factors(c: PCtx, s: PState)
    ensures
        match p_term(c, s) {
            Some((_s2, Ok(n))) => p_factor(c, s) matches Some((_, Ok(first))) && operand_chain(
                c,
                n,
                first,
                seq![TokenType::Mul, TokenType::Div, TokenType::Modulo],
                BinOpFunction::Factor,
            ),
            _ => true,
        },
{
    match step(c, s, p_eval(c, s, BinOpFunction::Factor)) {
        Some((s1, Ok(left))) => {
            lemma_bin_loop_chain(
                c,
                s1,
                BinOpFunction::Factor,
                seq![TokenType::Mul, TokenType::Div, TokenType::Modulo],
                BinOpFunction::Factor,
                left,
            );
        },
        _ => {},
    }
}

/// Binary operators of one level group to the left: `a - b - c` is
/// `(a - b) - c`. Whatever a level reads after its first operand `left`,
/// the result has `left` at the bottom of its left spine, and every
/// operation on that spine has an operator of the level.
pub proof fn law_binary_operators_group_left(
    c: PCtx,
    s: PState,
    fa: BinOpFunction,
    ops: Seq<TokenType>,
    fb: BinOpFunction,
    left: SpecNode,
)
    ensures
        match p_bin_loop(c, s, fa, ops, fb, left) {
            Some((_s2, Ok(n))) => left_nested(n, left, ops),
            _ => true,
        },
    decreases c.tokens.len() - s.idx,
{
    if rd(c, s) && ops.contains(ty(c, s)) {
        let op = tk(c, s);
        let s1 = adv(s);
        match step(c, s1, p_eval(c, s1, fb)) {
            Some((s2, Ok(right))) => {
                let m = SpecNode::BinOp { left: Box::new(left), op, right: Box::new(right) };
                law_binary_operators_group_left(c, s2, fa, ops, fb, m);
                match p_bin_loop(c, s2, fa, ops, fb, m) {
                    Some((_s3, Ok(n))) => {
                        assert(left_nested(left, left, ops));
                        assert(left_nested(m, left, ops));
                        lemma_left_nested_trans(n, m, left, ops);
                    },
                    _ => {},
                }
            },
            _ => {},
        }
    }
}


/// Defining a macro makes its name find the new body, whether the name was
/// defined before or not: the latest definition wins.
pub proof fn law_macro_latest_wins(ms: Seq<(Seq<char>, SpecNode)>, name: Seq<char>, body: SpecNode)
    ensures
        ({
            let ms2 = macro_insert(ms, name, body);
            &&& find_macro(ms2, name) is Some
            &&& ms2[find_macro(ms2, name)->0] == (name, body)
        }),
{
    lemma_find_macro(ms, name, 0);
    let ms2 = macro_insert(ms, name, body);
    match find_macro(ms, name) {
        Some(i) => {
            lemma_find_macro_same(ms, ms2, name, 0, i);
        },
        None => {
            lemma_find_macro_push(ms, name, body, 0);
        },
    }
}

/// Defining a macro leaves what every other name finds.
pub proof fn law_macro_keeps_others(ms: Seq<(Seq<char>, SpecNode)>, name: Seq<char>, body: SpecNode, other: Seq<char>)
    requires
        other != name,
    ensures
        ({
            let ms2 = macro_insert(ms, name, body);
            match find_macro(ms, other) {
                Some(j) => find_macro(ms2, other) == Some(j) && ms2[j] == ms[j],
                None => find_macro(ms2, other) is None,
            }
        }),
{
    lemma_find_macro(ms, name, 0);
    lemma_find_macro_other(ms, macro_insert(ms, name, body), name, other, 0);
}

/// A name that a macro has is read as the macro's body.
pub proof fn law_macro_is_expanded(c: PCtx, s: PState, i: int)
    requires
        rd(c, s),
        ty(c, s) == TokenType::Identifier,
        tk(c, s).tok_value is Some,
        find_macro(s.macros, tk(c, s).tok_value->0) == Some(i),
    ensures
        p_atom_ident(c, s) == succ(adv(s), s.macros[i].1),
{
}

/// An import whose search finds a file that was imported before, under the
/// same path or another one, reads nothing from it.
pub proof fn law_import_once(c: PCtx, s: PState, name: Seq<char>, places: Seq<Seq<char>>, k: int)
    requires
        rd(c, adv(s)),
        rd(c, adv(adv(s))),
        ty(c, adv(s)) == TokenType::String,
        tk(c, adv(s)).tok_value == Some(name),
        search_places(tk(c, adv(s)).pos_start.file_path, name, c.include_paths) == Some(places),
        find_place(c.modules, places, 0) == Some(k),
        imported_before(c.file_ids, s.included, c.modules[k].0),
    ensures
        p_stmt_import(c, s) == succ(
            adv(adv(s)),
            SpecNode::Ignored { pos_start: tk(c, adv(adv(s))).pos_start, pos_end: tk(c, adv(adv(s))).pos_end },
        ),
{
}

/// A module that is imported is recorded under the path where the search
/// found it, so that importing the same file again reads nothing from it.
pub proof fn law_import_records(c: PCtx, s: PState, name: Seq<char>, places: Seq<Seq<char>>, k: int)
    requires
        rd(c, adv(s)),
        ty(c, adv(s)) == TokenType::String,
        tk(c, adv(s)).tok_value == Some(name),
        search_places(tk(c, adv(s)).pos_start.file_path, name, c.include_paths) == Some(places),
        find_place(c.modules, places, 0) == Some(k),
        p_stmt_import(c, s) matches Some((_, Ok(n))) && n is Import,
    ensures
        ({
            let st = (p_stmt_import(c, s)->0).0;
            &&& st.included.len() > 0
            &&& st.included.last() == c.modules[k].0
            &&& imported_before(c.file_ids, st.included, c.modules[k].0)
        }),
{
    let s2 = adv(adv(s));
    let st = (p_stmt_import(c, s)->0).0;
    if !imported_before(c.file_ids, s2.included, c.modules[k].0) {
        lemma_find_place(c.modules, places, 0);
        let c2 = PCtx { tokens: c.modules[k].1, modules: c.modules.remove(k), include_paths: c.include_paths, file_ids: c.file_ids };
        let t0 = PState { idx: 0, macros: s2.macros, included: s2.included };
        let t1 = (p_parse(c2, t0)->0).0;
        assert(st.included == t1.included.push(c.modules[k].0));
    }
    let j = st.included.len() - 1;
    assert(same_file(c.file_ids, st.included[j], c.modules[k].0));
}

/// The first macro called `name` from `i` on is one of them, and no macro
/// between `i` and it has the name.
pub proof fn lemma_find_macro(ms: Seq<(Seq<char>, SpecNode)>, name: Seq<char>, i: int)
    requires
        0 <= i,
    ensures
        match find_macro_from(ms, name, i) {
            Some(k) => i <= k < ms.len() && ms[k].0 == name && forall|j: int| i <= j < k ==> ms[j].0 != name,
            None => forall|j: int| i <= j < ms.len() ==> ms[j].0 != name,
        },
    decreases ms.len() - i,
{
    if i < ms.len() && ms[i].0 != name {
        lemma_find_macro(ms, name, i + 1);
    }
}

proof fn lemma_find_macro_same(ms: Seq<(Seq<char>, SpecNode)>, ms2: Seq<(Seq<char>, SpecNode)>, name: Seq<char>, i: int, k: int)
    requires
        0 <= i <= k < ms.len(),
        ms2.len() == ms.len(),
        ms2[k].0 == name,
        forall|j: int| i <= j < k ==> ms[j].0 != name && ms2[j] == ms[j],
    ensures
        find_macro_from(ms2, name, i) == Some(k),
    decreases k - i,
{
    if i < k {
        lemma_find_macro_same(ms, ms2, name, i + 1, k);
    }
}

proof fn lemma_find_macro_push(ms: Seq<(Seq<char>, SpecNode)>, name: Seq<char>, body: SpecNode, i: int)
    requires
        0 <= i <= ms.len(),
        forall|j: int| i <= j < ms.len() ==> ms[j].0 != name,
    ensures
        find_macro_from(ms.push((name, body)), name, i) == Some(ms.len() as int),
    decreases ms.len() - i,
{
    if i < ms.len() {
        lemma_find_macro_push(ms, name, body, i + 1);
    }
}

proof fn lemma_find_macro_other(
    ms: Seq<(Seq<char>, SpecNode)>,
    ms2: Seq<(Seq<char>, SpecNode)>,
    name: Seq<char>,
    other: Seq<char>,
    i: int,
)
    requires
        0 <= i,
        other != name,
        ms2.len() >= ms.len(),
        forall|j: int| 0 <= j < ms.len() ==> (ms2[j] == ms[j] || (ms2[j].0 == name && ms[j].0 == name)),
        forall|j: int| ms.len() <= j < ms2.len() ==> ms2[j].0 == name,
    ensures
        match find_macro_from(ms, other, i) {
            Some(j) => find_macro_from(ms2, other, i) == Some(j) && ms2[j] == ms[j],
            None => find_macro_from(ms2, other, i) is None,
        },
    decreases ms2.len() - i,
{
    if i < ms2.len() {
        lemma_find_macro_other(ms, ms2, name, other, i + 1);
    }
}

} // verus!
