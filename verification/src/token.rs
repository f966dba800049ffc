//! Tokens produced by the lexer and read by the parser.
use vstd::prelude::*;
use crate::position::{Position, SpecPosition};
use crate::text::str_eq;

verus! {

pub const TOKEN_FLAGS_NULL: u8 = 0;

pub const TOKEN_FLAGS_IS_ASSIGN: u8 = 1;

#[derive(Debug, PartialEq, Eq, Structural, Copy, Clone)]
pub enum TokenType {
    U64,
    String,
    Char,
    Identifier,
    Keyword,
    Plus,
    Minus,
    Mul,
    Div,
    Modulo,
    Eq,
    PlusAssign,
    MinusAssign,
    MulAssign,
    DivAssign,
    ModuloAssign,
    PlusPlus,
    MinusMinus,
    Colon,
    Lparen,
    Rparen,
    Lsquare,
    Rsquare,
    Lcurly,
    Rcurly,
    Ee,
    Ne,
    Lt,
    Gt,
    Lte,
    Gte,
    And,
    Or,
    BitAnd,
    BitAndAssign,
    BitOr,
    BitOrAssign,
    BitXor,
    BitXorAssign,
    BitShl,
    BitShlAssign,
    BitShr,
    BitShrAssign,
    BitNot,
    BitNotAssign,
    Not,
    Comma,
    Arrow,
    Newline,
    Dereference,
    Dot,
    Offset,
    ReadBytes,
    PointerAssign,
    Bof,
    Eof,
}

/// A token as a value.
pub struct SpecToken {
    pub tok_type: TokenType,
    pub tok_value: Option<Seq<char>>,
    pub pos_start: SpecPosition,
    pub pos_end: SpecPosition,
    pub flags: u8,
}

#[derive(Debug)]
pub struct Token {
    pub tok_type: TokenType,
    pub tok_value: Option<String>,
    pub pos_start: Position,
    pub pos_end: Position,
    pub flags: u8,
}

pub open spec fn opt_string_view(v: Option<String>) -> Option<Seq<char>> {
    match v {
        Some(s) => Some(s@),
        None => None,
    }
}

impl View for Token {
    type V = SpecToken;

    open spec fn view(&self) -> SpecToken {
        SpecToken {
            tok_type: self.tok_type,
            tok_value: opt_string_view(self.tok_value),
            pos_start: self.pos_start@,
            pos_end: self.pos_end@,
            flags: self.flags,
        }
    }
}

impl SpecToken {
    /// The token has a value, and its type and value are the ones given.
    pub open spec fn matches(self, token_type: TokenType, token_value: Seq<char>) -> bool {
        &&& self.tok_value is Some
        &&& self.tok_type == token_type
        &&& self.tok_value->0 == token_value
    }

    /// A keyword token with the value given.
    pub open spec fn matches_keyword(self, value: Seq<char>) -> bool {
        self.matches(TokenType::Keyword, value)
    }

    /// Every bit of `flag` is set in the token's flags.
    pub open spec fn has_flag(self, flag: u8) -> bool {
        self.flags & flag == flag
    }
}

impl Clone for Token {
    fn clone(&self) -> (r: Self)
        ensures
            r == *self,
    {
        Token {
            tok_type: self.tok_type,
            tok_value: match &self.tok_value {
                Some(v) => Some(v.clone()),
                None => None,
            },
            pos_start: self.pos_start.clone(),
            pos_end: self.pos_end.clone(),
            flags: self.flags,
        }
    }
}

impl Token {
    pub fn new_without_value(tok_type: TokenType, pos_start: Position, pos_end: Position) -> (r: Token)
        ensures
            r == (Token { tok_type, tok_value: None, pos_start, pos_end, flags: TOKEN_FLAGS_NULL }),
    {
        Token::new(tok_type, None, pos_start, pos_end, TOKEN_FLAGS_NULL)
    }

    pub fn new_with_value(tok_type: TokenType, tok_value: String, pos_start: Position, pos_end: Position) -> (r: Token)
        ensures
            r == (Token { tok_type, tok_value: Some(tok_value), pos_start, pos_end, flags: TOKEN_FLAGS_NULL }),
    {
        Token::new(tok_type, Some(tok_value), pos_start, pos_end, TOKEN_FLAGS_NULL)
    }

    pub fn new_with_flags(tok_type: TokenType, tok_value: String, pos_start: Position, pos_end: Position, flags: u8) -> (r: Token)
        ensures
            r == (Token { tok_type, tok_value: Some(tok_value), pos_start, pos_end, flags }),
    {
        Token::new(tok_type, Some(tok_value), pos_start, pos_end, flags)
    }

    pub fn new_with_flags_no_value(tok_type: TokenType, pos_start: Position, pos_end: Position, flags: u8) -> (r: Token)
        ensures
            r == (Token { tok_type, tok_value: None, pos_start, pos_end, flags }),
    {
        Token::new(tok_type, None, pos_start, pos_end, flags)
    }

    pub fn new(tok_type: TokenType, tok_value: Option<String>, pos_start: Position, pos_end: Position, flags: u8) -> (r: Token)
        ensures
            r == (Token { tok_type, tok_value, pos_start, pos_end, flags }),
    {
        Token { tok_type, tok_value, pos_start, pos_end, flags }
    }

    pub fn token_type(&self) -> (r: TokenType)
        ensures
            r == self.tok_type,
    {
        self.tok_type
    }

    pub fn token_value(&self) -> (r: &Option<String>)
        ensures
            *r == self.tok_value,
    {
        &self.tok_value
    }

    pub fn pos_start(&self) -> (r: &Position)
        ensures
            *r == self.pos_start,
    {
        &self.pos_start
    }

    pub fn pos_end(&self) -> (r: &Position)
        ensures
            *r == self.pos_end,
    {
        &self.pos_end
    }

    pub fn flags(&self) -> (r: &u8)
        ensures
            *r == self.flags,
    {
        &self.flags
    }

    pub fn matches_keyword(&self, value_str: &str) -> (r: bool)
        ensures
            r == self@.matches_keyword(value_str@),
    {
        self.matches(TokenType::Keyword, value_str)
    }

    pub fn has_flag(&self, flag: u8) -> (r: bool)
        ensures
            r == self@.has_flag(flag),
    {
        self.flags & flag == flag
    }

    pub fn matches(&self, token_type: TokenType, token_value: &str) -> (r: bool)
        ensures
            r == self@.matches(token_type, token_value@),
    {
        match &self.tok_value {
            None => false,
            Some(v) => self.tok_type == token_type && str_eq(v.as_str(), token_value),
        }
    }

    /// The tokens are equal when this token matches the other's type and
    /// value; the other token must have a value.
    pub fn eq(&self, other: &Token) -> (r: bool)
        requires
            other.tok_value is Some,
        ensures
            r == self@.matches(other.tok_type, other@.tok_value->0),
    {
        match &other.tok_value {
            Some(v) => self.matches(other.token_type(), v.as_str()),
            None => false,
        }
    }
}


impl TokenType {
    /// The name of the token type, as it is printed.
    pub open spec fn spec_name(self) -> Seq<char> {
        match self {
            TokenType::U64 => "U64"@,
            TokenType::String => "String"@,
            TokenType::Char => "Char"@,
            TokenType::Identifier => "Identifier"@,
            TokenType::Keyword => "Keyword"@,
            TokenType::Plus => "Plus"@,
            TokenType::Minus => "Minus"@,
            TokenType::Mul => "Mul"@,
            TokenType::Div => "Div"@,
            TokenType::Modulo => "Modulo"@,
            TokenType::Eq => "Eq"@,
            TokenType::PlusAssign => "PlusAssign"@,
            TokenType::MinusAssign => "MinusAssign"@,
            TokenType::MulAssign => "MulAssign"@,
            TokenType::DivAssign => "DivAssign"@,
            TokenType::ModuloAssign => "ModuloAssign"@,
            TokenType::PlusPlus => "PlusPlus"@,
            TokenType::MinusMinus => "MinusMinus"@,
            TokenType::Colon => "Colon"@,
            TokenType::Lparen => "Lparen"@,
            TokenType::Rparen => "Rparen"@,
            TokenType::Lsquare => "Lsquare"@,
            TokenType::Rsquare => "Rsquare"@,
            TokenType::Lcurly => "Lcurly"@,
            TokenType::Rcurly => "Rcurly"@,
            TokenType::Ee => "Ee"@,
            TokenType::Ne => "Ne"@,
            TokenType::Lt => "Lt"@,
            TokenType::Gt => "Gt"@,
            TokenType::Lte => "Lte"@,
            TokenType::Gte => "Gte"@,
            TokenType::And => "And"@,
            TokenType::Or => "Or"@,
            TokenType::BitAnd => "BitAnd"@,
            TokenType::BitAndAssign => "BitAndAssign"@,
            TokenType::BitOr => "BitOr"@,
            TokenType::BitOrAssign => "BitOrAssign"@,
            TokenType::BitXor => "BitXor"@,
            TokenType::BitXorAssign => "BitXorAssign"@,
            TokenType::BitShl => "BitShl"@,
            TokenType::BitShlAssign => "BitShlAssign"@,
            TokenType::BitShr => "BitShr"@,
            TokenType::BitShrAssign => "BitShrAssign"@,
            TokenType::BitNot => "BitNot"@,
            TokenType::BitNotAssign => "BitNotAssign"@,
            TokenType::Not => "Not"@,
            TokenType::Comma => "Comma"@,
            TokenType::Arrow => "Arrow"@,
            TokenType::Newline => "Newline"@,
            TokenType::Dereference => "Dereference"@,
            TokenType::Dot => "Dot"@,
            TokenType::Offset => "Offset"@,
            TokenType::ReadBytes => "ReadBytes"@,
            TokenType::PointerAssign => "PointerAssign"@,
            TokenType::Bof => "Bof"@,
            TokenType::Eof => "Eof"@,
        }
    }

    /// The name of the token type, as it is printed.
    pub fn name(&self) -> (r: &'static str)
        ensures
            r@ == self.spec_name(),
    {
        match self {
            TokenType::U64 => "U64",
            TokenType::String => "String",
            TokenType::Char => "Char",
            TokenType::Identifier => "Identifier",
            TokenType::Keyword => "Keyword",
            TokenType::Plus => "Plus",
            TokenType::Minus => "Minus",
            TokenType::Mul => "Mul",
            TokenType::Div => "Div",
            TokenType::Modulo => "Modulo",
            TokenType::Eq => "Eq",
            TokenType::PlusAssign => "PlusAssign",
            TokenType::MinusAssign => "MinusAssign",
            TokenType::MulAssign => "MulAssign",
            TokenType::DivAssign => "DivAssign",
            TokenType::ModuloAssign => "ModuloAssign",
            TokenType::PlusPlus => "PlusPlus",
            TokenType::MinusMinus => "MinusMinus",
            TokenType::Colon => "Colon",
            TokenType::Lparen => "Lparen",
            TokenType::Rparen => "Rparen",
            TokenType::Lsquare => "Lsquare",
            TokenType::Rsquare => "Rsquare",
            TokenType::Lcurly => "Lcurly",
            TokenType::Rcurly => "Rcurly",
            TokenType::Ee => "Ee",
            TokenType::Ne => "Ne",
            TokenType::Lt => "Lt",
            TokenType::Gt => "Gt",
            TokenType::Lte => "Lte",
            TokenType::Gte => "Gte",
            TokenType::And => "And",
            TokenType::Or => "Or",
            TokenType::BitAnd => "BitAnd",
            TokenType::BitAndAssign => "BitAndAssign",
            TokenType::BitOr => "BitOr",
            TokenType::BitOrAssign => "BitOrAssign",
            TokenType::BitXor => "BitXor",
            TokenType::BitXorAssign => "BitXorAssign",
            TokenType::BitShl => "BitShl",
            TokenType::BitShlAssign => "BitShlAssign",
            TokenType::BitShr => "BitShr",
            TokenType::BitShrAssign => "BitShrAssign",
            TokenType::BitNot => "BitNot",
            TokenType::BitNotAssign => "BitNotAssign",
            TokenType::Not => "Not",
            TokenType::Comma => "Comma",
            TokenType::Arrow => "Arrow",
            TokenType::Newline => "Newline",
            TokenType::Dereference => "Dereference",
            TokenType::Dot => "Dot",
            TokenType::Offset => "Offset",
            TokenType::ReadBytes => "ReadBytes",
            TokenType::PointerAssign => "PointerAssign",
            TokenType::Bof => "Bof",
            TokenType::Eof => "Eof",
        }
    }
}

impl SpecToken {
    /// How the token is printed: its type's name, a colon, and its value or
    /// `<NULL>`.
    pub open spec fn display(self) -> Seq<char> {
        self.tok_type.spec_name() + ":"@ + match self.tok_value {
            Some(v) => v,
            None => "<NULL>"@,
        }
    }
}

impl Token {
    /// How the token is printed: its type's name, a colon, and its value or
    /// `<NULL>`.
    pub fn to_string(&self) -> (r: String)
        ensures
            r@ == self@.display(),
    {
        let mut s = String::from_str(self.tok_type.name());
        s.append(":");
        match &self.tok_value {
            Some(v) => s.append(v.as_str()),
            None => s.append("<NULL>"),
        }
        s
    }
}

} // verus!
