//! Character classification used by the lexer.
use vstd::prelude::*;

verus! {

/// An ASCII decimal digit (`'0'..='9'`).
pub open spec fn spec_is_digit(c: char) -> bool {
    48 <= (c as u32) && (c as u32) <= 57
}

/// An ASCII letter (`'A'..='Z'` or `'a'..='z'`).
pub open spec fn spec_is_alpha(c: char) -> bool {
    (65 <= (c as u32) && (c as u32) <= 90) || (97 <= (c as u32) && (c as u32) <= 122)
}

/// The character that the escape sequence `\c` stands for, if any.
pub open spec fn spec_escape_char(c: char) -> Option<char> {
    if c == '\'' {
        Some('\'')
    } else if c == '\\' {
        Some('\\')
    } else if c == '0' {
        Some('\0')
    } else if c == 'n' {
        Some('\n')
    } else if c == 't' {
        Some('\t')
    } else {
        None
    }
}

pub fn is_digit(c: &char) -> (r: bool)
    ensures
        r == spec_is_digit(*c),
{
    *c as u32 >= 48 && *c as u32 <= 57
}

pub fn is_alpha(c: &char) -> (r: bool)
    ensures
        r == spec_is_alpha(*c),
{
    (*c as u32 >= 65 && *c as u32 <= 90) || (*c as u32 >= 97 && *c as u32 <= 122)
}

pub fn escape_char(c: &char) -> (r: Option<char>)
    ensures
        r == spec_escape_char(*c),
{
    match *c {
        '\'' => Some('\''),
        '\\' => Some('\\'),
        '0' => Some('\0'),
        'n' => Some('\n'),
        't' => Some('\t'),
        _ => None,
    }
}

} // verus!
