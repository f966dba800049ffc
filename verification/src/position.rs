//! Positions in a source file.
use vstd::prelude::*;

verus! {

/// A position as a value: character index, line and column (all counted
/// from zero) and the path of the file.
pub struct SpecPosition {
    pub index: nat,
    pub line: nat,
    pub col: nat,
    pub file_path: Seq<char>,
}

/// A position in a source file. The file is named by its path.
#[derive(Debug)]
pub struct Position {
    pub index: usize,
    pub line: usize,
    pub col: usize,
    pub file_path: String,
}

impl View for Position {
    type V = SpecPosition;

    open spec fn view(&self) -> SpecPosition {
        SpecPosition {
            index: self.index as nat,
            line: self.line as nat,
            col: self.col as nat,
            file_path: self.file_path@,
        }
    }
}

/// The position that `advance` reaches from `p` over the character `c`.
pub open spec fn spec_advance(p: SpecPosition, c: char) -> SpecPosition {
    if c == '\n' {
        SpecPosition { index: p.index + 1, line: p.line + 1, col: 0, ..p }
    } else {
        SpecPosition { index: p.index + 1, col: p.col + 1, ..p }
    }
}

/// The position reached from `p` by advancing over each character of `s`
/// in order.
pub open spec fn advance_over(p: SpecPosition, s: Seq<char>) -> SpecPosition
    decreases s.len(),
{
    if s.len() == 0 {
        p
    } else {
        spec_advance(advance_over(p, s.drop_last()), s.last())
    }
}

/// The number of newlines in `s`.
pub open spec fn newline_count(s: Seq<char>) -> nat
    decreases s.len(),
{
    if s.len() == 0 {
        0
    } else {
        newline_count(s.drop_last()) + if s.last() == '\n' { 1nat } else { 0nat }
    }
}

/// The number of characters of `s` after its last newline (all of them
/// where it has none).
pub open spec fn chars_after_last_newline(s: Seq<char>) -> nat
    decreases s.len(),
{
    if s.len() == 0 {
        0
    } else if s.last() == '\n' {
        0
    } else {
        chars_after_last_newline(s.drop_last()) + 1
    }
}

/// Advancing from the start of a file over a whole text reaches the index
/// that is the text's length, the line that is the number of its newlines,
/// and the column that is the number of characters after its last newline;
/// the file stays the same.
pub proof fn law_advance_over_text(file_path: Seq<char>, s: Seq<char>)
    ensures
        advance_over(SpecPosition { index: 0, line: 0, col: 0, file_path }, s) == (SpecPosition {
            index: s.len(),
            line: newline_count(s),
            col: chars_after_last_newline(s),
            file_path,
        }),
    decreases s.len(),
{
    if s.len() > 0 {
        law_advance_over_text(file_path, s.drop_last());
    }
}

impl Position {
    /// The start of the file at `file_path`.
    pub fn new(file_path: String) -> (r: Self)
        ensures
            r@ == (SpecPosition { index: 0, line: 0, col: 0, file_path: file_path@ }),
    {
        Position { line: 0, col: 0, index: 0, file_path }
    }

    /// The start of no file (empty path).
    pub fn empty() -> (r: Self)
        ensures
            r@ == (SpecPosition { index: 0, line: 0, col: 0, file_path: Seq::<char>::empty() }),
    {
        Position { line: 0, col: 0, index: 0, file_path: String::new() }
    }

    /// Moves past `current_char`: one character further, and to the start of
    /// the next line after a newline.
    pub fn advance(&mut self, current_char: &char)
        requires
            old(self).index < usize::MAX,
            old(self).col < usize::MAX,
            *current_char == '\n' ==> old(self).line < usize::MAX,
        ensures
            final(self)@ == spec_advance(old(self)@, *current_char),
    {
        self.index = self.index + 1;
        self.col = self.col + 1;

        if *current_char == '\n' {
            self.line = self.line + 1;
            self.col = 0;
        }
    }

    pub fn index(&self) -> (r: &usize)
        ensures
            *r == self.index,
    {
        &self.index
    }

    pub fn line(&self) -> (r: &usize)
        ensures
            *r == self.line,
    {
        &self.line
    }

    pub fn col(&self) -> (r: &usize)
        ensures
            *r == self.col,
    {
        &self.col
    }

    pub fn file_name(&self) -> (r: &String)
        ensures
            r@ == self.file_path@,
    {
        &self.file_path
    }

}

impl Clone for Position {
    fn clone(&self) -> (r: Self)
        ensures
            r == *self,
    {
        Position {
            index: self.index,
            line: self.line,
            col: self.col,
            file_path: self.file_path.clone(),
        }
    }
}

} // verus!
