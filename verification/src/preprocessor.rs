//! The preprocessor: comment lines, `#include` of other files, and
//! `#macro` definitions whose names are replaced, as regular expressions,
//! by their bodies in the lines that follow.
//!
//! An included file is looked for next to the including file, then in each
//! include directory in order. Reading files is left to the caller: the
//! include table hands the preprocessor the contents of the files it read.
//! Where the table lacks a file the preprocessor needs, it says which one,
//! and the caller runs it again with the file added.
use vstd::prelude::*;
use crate::text::{decimal, chars_of, string_push, str_eq, string_of, usize_to_string};
use crate::paths::{locations, search_places, texts};

verus! {

// ----- What the outside code computes -----

/// Whether `c` has the Unicode property `White_Space`, as
/// `char::is_whitespace` documents: the 25 code points below.
pub open spec fn char_whitespace(c: char) -> bool {
    let n = c as u32;
    ||| 0x9 <= n <= 0xD
    ||| n == 0x20
    ||| n == 0x85
    ||| n == 0xA0
    ||| n == 0x1680
    ||| 0x2000 <= n <= 0x200A
    ||| n == 0x2028
    ||| n == 0x2029
    ||| n == 0x202F
    ||| n == 0x205F
    ||| n == 0x3000
}

/// Whether `regex::Regex::new` accepts `pattern`.
pub uninterp spec fn regex_compiles(pattern: Seq<char>) -> bool;

/// What `regex::Regex::replace_all` makes of `text`, with every match of
/// `pattern` replaced by `rep` (in which `$name` and `${name}` stand for
/// groups of the match).
pub uninterp spec fn regex_replacement(pattern: Seq<char>, text: Seq<char>, rep: Seq<char>) -> Seq<char>;

/// Whether `c` is white space (`char::is_whitespace`).
pub(crate) fn is_whitespace(c: char) -> (r: bool)
    ensures
        r == char_whitespace(c),
{
    let n = c as u32;
    (0x9 <= n && n <= 0xD) || n == 0x20 || n == 0x85 || n == 0xA0 || n == 0x1680 || (0x2000 <= n && n
        <= 0x200A) || n == 0x2028 || n == 0x2029 || n == 0x202F || n == 0x205F || n == 0x3000
}

#[verifier::external_type_specification]
#[verifier::external_body]
pub struct ExRegex(regex::Regex);

/// `regex::Regex::new`: succeeds exactly on the patterns it accepts; its
/// error is dropped.
#[verifier::external_body]
fn regex_new(pattern: &str) -> (r: Option<regex::Regex>)
    ensures
        r is Some == regex_compiles(pattern@),
{
    regex::Regex::new(pattern).ok()
}

/// A macro name compiled as a pattern, together with the name. Only
/// `compile` makes one, so `re` is always what `regex::Regex::new` made of
/// `source`.
struct MacroPattern {
    source: String,
    re: regex::Regex,
}

impl MacroPattern {
    /// The pattern `source`, where it compiles.
    fn compile(source: &str) -> (r: Option<MacroPattern>)
        ensures
            r is Some == regex_compiles(source@),
            match r {
                Some(p) => p.source@ == source@,
                None => true,
            },
    {
        match regex_new(source) {
            Some(re) => Some(MacroPattern { source: string_of(source), re }),
            None => None,
        }
    }
}

/// `regex::Regex::replace_all` on the pattern compiled from `p.source`:
/// the result is the named replacement of `text`.
#[verifier::external_body]
fn regex_replace_all(p: &MacroPattern, text: &str, rep: &str) -> (r: String)
    ensures
        r@ == regex_replacement(p.source@, text@, rep@),
{
    p.re.replace_all(text, rep).into_owned()
}

// ----- Lines, spaces and trimming -----

/// The first newline at or after `i`.
pub open spec fn find_newline(t: Seq<char>, i: int) -> Option<int>
    decreases t.len() - i,
{
    if i < 0 || i >= t.len() {
        None
    } else if t[i] == '\n' {
        Some(i)
    } else {
        find_newline(t, i + 1)
    }
}

/// A newline found is at or after `i`, within `t`, and none comes before it.
pub proof fn lemma_find_newline(t: Seq<char>, i: int)
    requires
        0 <= i,
    ensures
        match find_newline(t, i) {
            Some(k) => i <= k < t.len() && t[k] == '\n' && forall|j: int| i <= j < k ==> t[j] != '\n',
            None => forall|j: int| i <= j < t.len() ==> t[j] != '\n',
        },
    decreases t.len() - i,
{
    if 0 <= i < t.len() && t[i] != '\n' {
        lemma_find_newline(t, i + 1);
    }
}

/// A line without the `\r` of a `\r\n` ending.
pub open spec fn strip_cr(l: Seq<char>) -> Seq<char> {
    if l.len() > 0 && l.last() == '\r' {
        l.drop_last()
    } else {
        l
    }
}

/// The lines of `t` from `start` on, as `str::lines` gives them: split at
/// `\n` or `\r\n`, without the endings; a final ending adds no empty line.
pub open spec fn lines_from(t: Seq<char>, start: int) -> Seq<Seq<char>>
    decreases t.len() - start,
{
    if start < 0 || start >= t.len() {
        Seq::empty()
    } else {
        proof {
            lemma_find_newline(t, start);
        }
        match find_newline(t, start) {
            None => seq![t.subrange(start, t.len() as int)],
            Some(k) => seq![strip_cr(t.subrange(start, k))] + lines_from(t, k + 1),
        }
    }
}

pub open spec fn text_lines(t: Seq<char>) -> Seq<Seq<char>> {
    lines_from(t, 0)
}

/// `s` without leading whitespace.
pub open spec fn trim_start(s: Seq<char>) -> Seq<char>
    decreases s.len(),
{
    if s.len() > 0 && char_whitespace(s[0]) {
        trim_start(s.drop_first())
    } else {
        s
    }
}

/// `s` without trailing whitespace.
pub open spec fn trim_end(s: Seq<char>) -> Seq<char>
    decreases s.len(),
{
    if s.len() > 0 && char_whitespace(s.last()) {
        trim_end(s.drop_last())
    } else {
        s
    }
}

/// `s` without leading and trailing whitespace, as `str::trim` gives it.
pub open spec fn trim(s: Seq<char>) -> Seq<char> {
    trim_end(trim_start(s))
}

/// The first space in `s` at or after `i`.
pub open spec fn space_from(s: Seq<char>, i: int) -> Option<int>
    decreases s.len() - i,
{
    if i < 0 || i >= s.len() {
        None
    } else if s[i] == ' ' {
        Some(i)
    } else {
        space_from(s, i + 1)
    }
}

/// The first space in `s`.
pub open spec fn first_space(s: Seq<char>) -> Option<int> {
    space_from(s, 0)
}

/// The part of `s` before its first space (all of it where it has none).
pub open spec fn before_space(s: Seq<char>) -> Seq<char> {
    match first_space(s) {
        Some(k) => s.subrange(0, k),
        None => s,
    }
}

/// The part of `s` after its first space (nothing where it has none).
pub open spec fn after_space(s: Seq<char>) -> Seq<char> {
    match first_space(s) {
        Some(k) => s.subrange(k + 1, s.len() as int),
        None => Seq::empty(),
    }
}

// ----- Macros -----

/// `line` with the macros applied in order, each of its names replaced, as
/// a pattern, by its body; `None` where a name is no valid pattern.
pub open spec fn expand(line: Seq<char>, macros: Seq<(Seq<char>, Seq<char>)>) -> Option<Seq<char>>
    decreases macros.len(),
{
    if macros.len() == 0 {
        Some(line)
    } else {
        match expand(line, macros.drop_last()) {
            None => None,
            Some(l) => if regex_compiles(macros.last().0) {
                Some(regex_replacement(macros.last().0, l, macros.last().1))
            } else {
                None
            },
        }
    }
}

/// The place of the first macro called `name`.
pub open spec fn find_macro(macros: Seq<(Seq<char>, Seq<char>)>, name: Seq<char>, i: int) -> Option<int>
    decreases macros.len() - i,
{
    if i < 0 || i >= macros.len() {
        None
    } else if macros[i].0 == name {
        Some(i)
    } else {
        find_macro(macros, name, i + 1)
    }
}

/// The macros with `name` defined as `body`, replacing an earlier
/// definition in its place.
pub open spec fn define_macro(macros: Seq<(Seq<char>, Seq<char>)>, name: Seq<char>, body: Seq<char>) -> Seq<(Seq<char>, Seq<char>)> {
    match find_macro(macros, name, 0) {
        Some(i) => macros.update(i, (name, body)),
        None => macros.push((name, body)),
    }
}

// ----- The preprocessor -----

/// The include table as values: the directories searched for included
/// files, and, for a place, the contents of the file there, or `None` where
/// it could not be read.
pub struct PPCtx {
    pub include_paths: Seq<Seq<char>>,
    pub files: Seq<(Seq<char>, Option<Seq<char>>)>,
}

/// What the preprocessor keeps between files: the places included so far
/// and the macros defined so far.
pub struct PPState {
    pub included: Seq<Seq<char>>,
    pub macros: Seq<(Seq<char>, Seq<char>)>,
}

/// What preprocessing gives: the text, an error message, or the file that
/// the include table is missing.
pub enum PPOut {
    Text(Seq<char>),
    Error(Seq<char>),
    NeedFile(Seq<char>),
}

/// The contents of the file at `loc`.
pub open spec fn lookup_file(ctx: PPCtx, loc: Seq<char>, i: int) -> Option<Option<Seq<char>>>
    decreases ctx.files.len() - i,
{
    if i < 0 || i >= ctx.files.len() {
        None
    } else if ctx.files[i].0 == loc {
        Some(ctx.files[i].1)
    } else {
        lookup_file(ctx, loc, i + 1)
    }
}

/// The message of an error in the line at `i`.
pub open spec fn line_message(prefix: Seq<char>, i: int) -> Seq<char> {
    prefix + decimal((i + 1) as nat)
}

/// Preprocesses the text of the file `cur`. `fuel` bounds how deep includes
/// nest; where they nest deeper, a file includes itself, and there is no
/// result (`None`), as there is none where a macro name is no valid
/// pattern.
pub open spec fn pp_text(ctx: PPCtx, cur: Seq<char>, text: Seq<char>, st: PPState, fuel: nat) -> Option<(PPState, PPOut)>
    decreases fuel, 3int, 0int,
{
    pp_lines(ctx, cur, text_lines(text), 0, st, Seq::empty(), fuel)
}

/// Preprocesses the lines from `i` on, after the text `acc`.
pub open spec fn pp_lines(
    ctx: PPCtx,
    cur: Seq<char>,
    lines: Seq<Seq<char>>,
    i: int,
    st: PPState,
    acc: Seq<char>,
    fuel: nat,
) -> Option<(PPState, PPOut)>
    decreases fuel, 2int, lines.len() - i,
{
    if i < 0 || i >= lines.len() {
        Some((st, PPOut::Text(acc)))
    } else {
        let line = lines[i];
        if line.len() > 0 && line[0] == '#' {
            let rest = line.drop_first();
            if rest.len() > 0 && rest[0] == ' ' {
                pp_lines(ctx, cur, lines, i + 1, st, acc, fuel)
            } else {
                let trimmed = trim(rest);
                if trimmed.len() == 0 {
                    Some((st, PPOut::Error(line_message("empty preprocessor directive in line "@, i))))
                } else {
                    let command = before_space(trimmed);
                    let args = after_space(trimmed);
                    if command == "include"@ {
                        match pp_include(ctx, cur, args, st, fuel) {
                            None => None,
                            Some((st2, out)) => match out {
                                PPOut::Text(t) => pp_lines(ctx, cur, lines, i + 1, st2, acc + t, fuel),
                                _ => Some((st2, out)),
                            },
                        }
                    } else if command == "macro"@ {
                        if first_space(args) is None {
                            Some((st, PPOut::Error(line_message("macro directive requires at least 2 arguments in line "@, i))))
                        } else {
                            let name = before_space(args);
                            let body = "("@ + after_space(args) + ")"@;
                            match expand(body, st.macros) {
                                None => None,
                                Some(b) => pp_lines(
                                    ctx,
                                    cur,
                                    lines,
                                    i + 1,
                                    PPState { macros: define_macro(st.macros, name, b), ..st },
                                    acc,
                                    fuel,
                                ),
                            }
                        }
                    } else {
                        Some((st, PPOut::Error("unknown preprocessor directive '"@ + command + line_message("' in line "@, i))))
                    }
                }
            }
        } else {
            match expand(line, st.macros) {
                None => None,
                Some(l) => pp_lines(ctx, cur, lines, i + 1, st, acc + l + "\n"@, fuel),
            }
        }
    }
}

/// `#include file_path` in `cur`: the preprocessed text of the first place
/// that was included before (nothing) or that can be read (its text and a
/// newline).
pub open spec fn pp_include(ctx: PPCtx, cur: Seq<char>, file_path: Seq<char>, st: PPState, fuel: nat) -> Option<(PPState, PPOut)>
    decreases fuel, 1int, 0int,
{
    match search_places(cur, file_path, ctx.include_paths) {
        None => None,
        Some(locs) => pp_try(ctx, file_path, locs, 0, st, fuel),
    }
}

/// Tries the places from `k` on.
pub open spec fn pp_try(
    ctx: PPCtx,
    file_path: Seq<char>,
    locs: Seq<Seq<char>>,
    k: int,
    st: PPState,
    fuel: nat,
) -> Option<(PPState, PPOut)>
    decreases fuel, 0int, locs.len() - k,
{
    if k < 0 || k >= locs.len() {
        Some((st, PPOut::Error("could not find included file "@ + file_path)))
    } else {
        let loc = locs[k];
        if st.included.contains(loc) {
            Some((st, PPOut::Text(Seq::empty())))
        } else {
            match lookup_file(ctx, loc, 0) {
                None => Some((st, PPOut::NeedFile(loc))),
                Some(None) => pp_try(ctx, file_path, locs, k + 1, st, fuel),
                Some(Some(content)) => if fuel == 0 {
                    None
                } else {
                    match pp_text(ctx, loc, content, st, (fuel - 1) as nat) {
                        None => None,
                        Some((st2, out)) => match out {
                            PPOut::Error(e) => Some(
                                (st2, PPOut::Error("error preprocessing included file "@ + loc + ": "@ + e)),
                            ),
                            PPOut::Text(t) => Some(
                                (PPState { included: st2.included.push(loc), ..st2 }, PPOut::Text(t + "\n"@)),
                            ),
                            _ => Some((st2, out)),
                        },
                    }
                },
            }
        }
    }
}

/// No two macros share a name.
pub open spec fn distinct_names(m: Seq<(Seq<char>, Seq<char>)>) -> bool {
    forall|a: int, b: int| 0 <= a < b < m.len() ==> m[a].0 != m[b].0
}

/// Defining a macro keeps the names distinct: a name defined before is
/// replaced in its place, a new one is added at the end.
pub proof fn law_define_keeps_names_distinct(m: Seq<(Seq<char>, Seq<char>)>, name: Seq<char>, body: Seq<char>)
    requires
        distinct_names(m),
    ensures
        distinct_names(define_macro(m, name, body)),
{
    lemma_find_macro_range(m, name, 0);
}

proof fn lemma_pp_text_distinct(ctx: PPCtx, cur: Seq<char>, text: Seq<char>, st: PPState, fuel: nat)
    requires
        distinct_names(st.macros),
    ensures
        match pp_text(ctx, cur, text, st, fuel) {
            Some((st2, _o)) => distinct_names(st2.macros),
            None => true,
        },
    decreases fuel, 3int, 0int,
{
    lemma_pp_lines_distinct(ctx, cur, text_lines(text), 0, st, Seq::empty(), fuel);
}

proof fn lemma_pp_lines_distinct(
    ctx: PPCtx,
    cur: Seq<char>,
    lines: Seq<Seq<char>>,
    i: int,
    st: PPState,
    acc: Seq<char>,
    fuel: nat,
)
    requires
        distinct_names(st.macros),
    ensures
        match pp_lines(ctx, cur, lines, i, st, acc, fuel) {
            Some((st2, _o)) => distinct_names(st2.macros),
            None => true,
        },
    decreases fuel, 2int, lines.len() - i,
{
    if 0 <= i < lines.len() {
        let line = lines[i];
        if line.len() > 0 && line[0] == '#' {
            let rest = line.drop_first();
            if rest.len() > 0 && rest[0] == ' ' {
                lemma_pp_lines_distinct(ctx, cur, lines, i + 1, st, acc, fuel);
            } else {
                let trimmed = trim(rest);
                if trimmed.len() != 0 {
                    let command = before_space(trimmed);
                    let args = after_space(trimmed);
                    if command == "include"@ {
                        lemma_pp_include_distinct(ctx, cur, args, st, fuel);
                        match pp_include(ctx, cur, args, st, fuel) {
                            Some((st2, PPOut::Text(t))) => lemma_pp_lines_distinct(ctx, cur, lines, i + 1, st2, acc + t, fuel),
                            _ => {},
                        }
                    } else if command == "macro"@ && first_space(args) is Some {
                        let name = before_space(args);
                        let body = "("@ + after_space(args) + ")"@;
                        match expand(body, st.macros) {
                            Some(b) => {
                                law_define_keeps_names_distinct(st.macros, name, b);
                                lemma_pp_lines_distinct(
                                    ctx,
                                    cur,
                                    lines,
                                    i + 1,
                                    PPState { macros: define_macro(st.macros, name, b), ..st },
                                    acc,
                                    fuel,
                                );
                            },
                            None => {},
                        }
                    }
                }
            }
        } else {
            match expand(line, st.macros) {
                Some(l) => lemma_pp_lines_distinct(ctx, cur, lines, i + 1, st, acc + l + "\n"@, fuel),
                None => {},
            }
        }
    }
}

proof fn lemma_pp_include_distinct(ctx: PPCtx, cur: Seq<char>, file_path: Seq<char>, st: PPState, fuel: nat)
    requires
        distinct_names(st.macros),
    ensures
        match pp_include(ctx, cur, file_path, st, fuel) {
            Some((st2, _o)) => distinct_names(st2.macros),
            None => true,
        },
    decreases fuel, 1int, 0int,
{
    match search_places(cur, file_path, ctx.include_paths) {
        Some(locs) => lemma_pp_try_distinct(ctx, file_path, locs, 0, st, fuel),
        None => {},
    }
}

proof fn lemma_pp_try_distinct(ctx: PPCtx, file_path: Seq<char>, locs: Seq<Seq<char>>, k: int, st: PPState, fuel: nat)
    requires
        distinct_names(st.macros),
    ensures
        match pp_try(ctx, file_path, locs, k, st, fuel) {
            Some((st2, _o)) => distinct_names(st2.macros),
            None => true,
        },
    decreases fuel, 0int, locs.len() - k,
{
    if 0 <= k < locs.len() {
        let loc = locs[k];
        if !st.included.contains(loc) {
            match lookup_file(ctx, loc, 0) {
                Some(None) => lemma_pp_try_distinct(ctx, file_path, locs, k + 1, st, fuel),
                Some(Some(content)) => if fuel > 0 {
                    lemma_pp_text_distinct(ctx, loc, content, st, (fuel - 1) as nat);
                },
                None => {},
            }
        }
    }
}

// ----- Values of the executable types -----

/// Each string as its characters.
pub open spec fn views(s: Seq<String>) -> Seq<Seq<char>> {
    Seq::new(s.len(), |i: int| s[i]@)
}

/// Each macro as its name and body.
pub open spec fn macro_views(s: Seq<(String, String)>) -> Seq<(Seq<char>, Seq<char>)> {
    Seq::new(s.len(), |i: int| (s[i].0@, s[i].1@))
}

/// The contents of a file, or `None` where it could not be read.
pub open spec fn opt_view(c: Option<String>) -> Option<Seq<char>> {
    match c {
        Some(s) => Some(s@),
        None => None,
    }
}

/// The directories searched for included files, and, for a place, the
/// contents of the file there, or `None` where it could not be read.
pub struct IncludeTable {
    pub include_paths: Vec<String>,
    pub files: Vec<(String, Option<String>)>,
}

impl View for IncludeTable {
    type V = PPCtx;

    open spec fn view(&self) -> PPCtx {
        PPCtx {
            include_paths: views(self.include_paths@),
            files: Seq::new(self.files@.len(), |i: int| (self.files@[i].0@, opt_view(self.files@[i].1))),
        }
    }
}

/// What preprocessing gives: the text, an error message, or the file that
/// the include table is missing.
#[derive(Debug)]
pub enum Preprocessed {
    Text(String),
    Error(String),
    NeedFile(String),
}

impl View for Preprocessed {
    type V = PPOut;

    open spec fn view(&self) -> PPOut {
        match self {
            Preprocessed::Text(t) => PPOut::Text(t@),
            Preprocessed::Error(e) => PPOut::Error(e@),
            Preprocessed::NeedFile(l) => PPOut::NeedFile(l@),
        }
    }
}

/// The outcome of preprocessing as values: `None` where there is none.
pub open spec fn outcome(included: Seq<String>, macros: Seq<(String, String)>, r: Option<Preprocessed>) -> Option<(PPState, PPOut)> {
    match r {
        None => None,
        Some(o) => Some((PPState { included: views(included), macros: macro_views(macros) }, o@)),
    }
}

// ----- Text helpers -----

/// The first `n` characters of `v`, as a string.
fn string_from(v: &Vec<char>, start: usize, end: usize) -> (r: String)
    requires
        start <= end <= v@.len(),
    ensures
        r@ == v@.subrange(start as int, end as int),
{
    let mut r = String::new();
    let mut i = start;
    while i < end
        invariant
            start <= i <= end,
            end <= v@.len(),
            r@ == v@.subrange(start as int, i as int),
        decreases end - i,
    {
        string_push(&mut r, v[i]);
        proof {
            assert(v@.subrange(start as int, i + 1) =~= v@.subrange(start as int, i as int).push(v@[i as int]));
        }
        i = i + 1;
    }
    r
}

/// No newline is between `start` and `i`, so the search finds the same
/// newline from either.
proof fn lemma_newline_skip(t: Seq<char>, start: int, i: int)
    requires
        0 <= start <= i,
        forall|j: int| start <= j < i ==> t[j] != '\n',
    ensures
        find_newline(t, start) == find_newline(t, i),
    decreases i - start,
{
    if start < i {
        lemma_newline_skip(t, start + 1, i);
    }
}

/// The lines of `text`, as `str::lines` gives them.
fn split_lines(text: &str) -> (r: Vec<String>)
    ensures
        views(r@) == text_lines(text@),
{
    let cs = chars_of(text);
    let ghost t = text@;
    let mut out: Vec<String> = Vec::new();
    let mut start: usize = 0;
    let mut i: usize = 0;
    while i < cs.len()
        invariant
            cs@ == t,
            start <= i <= cs@.len(),
            forall|j: int| start <= j < i ==> t[j] != '\n',
            text_lines(t) == views(out@) + lines_from(t, start as int),
        decreases cs@.len() - i,
    {
        if cs[i] == '\n' {
            proof {
                lemma_newline_skip(t, start as int, i as int);
            }
            let end = if i > start && cs[i - 1] == '\r' { i - 1 } else { i };
            let line = string_from(&cs, start, end);
            proof {
                assert(line@ == strip_cr(t.subrange(start as int, i as int)));
                assert(views(out@.push(line)) =~= views(out@).push(line@));
                assert(lines_from(t, start as int) == seq![line@] + lines_from(t, i + 1));
                assert(views(out@) + lines_from(t, start as int) =~= views(out@.push(line)) + lines_from(t, i + 1));
            }
            out.push(line);
            start = i + 1;
        }
        i = i + 1;
    }
    if start < cs.len() {
        proof {
            lemma_newline_skip(t, start as int, i as int);
            lemma_find_newline(t, i as int);
        }
        let line = string_from(&cs, start, cs.len());
        proof {
            assert(lines_from(t, start as int) == seq![line@]);
            assert(views(out@) + lines_from(t, start as int) =~= views(out@.push(line)));
        }
        out.push(line);
    } else {
        proof {
            assert(views(out@) + lines_from(t, start as int) =~= views(out@));
        }
    }
    out
}

/// `s` from `a` to `b`, where `trim` of `s` is what lies between them.
pub(crate) fn trim_bounds(s: &Vec<char>) -> (r: (usize, usize))
    ensures
        r.0 <= r.1 <= s@.len(),
        trim(s@) == s@.subrange(r.0 as int, r.1 as int),
{
    let mut a: usize = 0;
    proof {
        assert(s@.subrange(0, s@.len() as int) =~= s@);
    }
    while a < s.len() && is_whitespace(s[a])
        invariant
            a <= s@.len(),
            trim_start(s@) == trim_start(s@.subrange(a as int, s@.len() as int)),
        decreases s@.len() - a,
    {
        proof {
            assert(s@.subrange(a as int, s@.len() as int).drop_first() =~= s@.subrange(a + 1, s@.len() as int));
        }
        a = a + 1;
    }
    let mut b: usize = s.len();
    proof {
        assert(s@.subrange(a as int, s@.len() as int) =~= s@.subrange(a as int, b as int));
    }
    while b > a && is_whitespace(s[b - 1])
        invariant
            a <= b <= s@.len(),
            trim_start(s@) == s@.subrange(a as int, s@.len() as int),
            trim(s@) == trim_end(s@.subrange(a as int, b as int)),
        decreases b - a,
    {
        proof {
            assert(s@.subrange(a as int, b as int).drop_last() =~= s@.subrange(a as int, b - 1));
        }
        b = b - 1;
    }
    (a, b)
}

/// The first space in `s` from `from` on, or the end of `s`.
fn space_index(s: &Vec<char>, from: usize) -> (r: usize)
    requires
        from <= s@.len(),
    ensures
        from <= r <= s@.len(),
        space_from(s@, from as int) == (if r < s@.len() { Some(r as int) } else { None::<int> }),
{
    let mut i = from;
    while i < s.len() && s[i] != ' '
        invariant
            from <= i <= s@.len(),
            space_from(s@, from as int) == space_from(s@, i as int),
        decreases s@.len() - i,
    {
        i = i + 1;
    }
    i
}

/// The message `prefix` followed by the number of the line at `i`.
fn line_message_of(prefix: &str, i: usize) -> (r: String)
    requires
        i < usize::MAX,
    ensures
        r@ == line_message(prefix@, i as int),
{
    let mut m = string_of(prefix);
    let n = usize_to_string(i + 1);
    m.append(n.as_str());
    m
}

// ----- Macros -----

/// `line` with the macros applied in order; `None` where a name is no
/// valid pattern.
fn expand_macros(line: &str, macros: &Vec<(String, String)>) -> (r: Option<String>)
    ensures
        match r {
            Some(l) => expand(line@, macro_views(macros@)) == Some(l@),
            None => expand(line@, macro_views(macros@)) is None,
        },
{
    let ghost mv = macro_views(macros@);
    let mut cur = string_of(line);
    let mut k: usize = 0;
    proof {
        assert(mv.take(0) =~= Seq::<(Seq<char>, Seq<char>)>::empty());
    }
    while k < macros.len()
        invariant
            k <= macros@.len(),
            mv == macro_views(macros@),
            expand(line@, mv.take(k as int)) == Some(cur@),
        decreases macros@.len() - k,
    {
        proof {
            assert(mv.take(k + 1).drop_last() =~= mv.take(k as int));
            assert(mv.take(k + 1).last() == (macros@[k as int].0@, macros@[k as int].1@));
        }
        let p = match MacroPattern::compile(macros[k].0.as_str()) {
            Some(p) => p,
            None => {
                proof {
                    lemma_expand_none_extends(line@, mv, (k + 1) as int);
                    assert(mv.take(mv.len() as int) =~= mv);
                }
                return None;
            },
        };
        cur = regex_replace_all(&p, cur.as_str(), macros[k].1.as_str());
        k = k + 1;
    }
    proof {
        assert(mv.take(mv.len() as int) =~= mv);
    }
    Some(cur)
}

/// Once the macros up to `k` fail, all of them do.
proof fn lemma_expand_none_extends(line: Seq<char>, mv: Seq<(Seq<char>, Seq<char>)>, k: int)
    requires
        0 <= k <= mv.len(),
        expand(line, mv.take(k)) is None,
    ensures
        expand(line, mv) is None,
    decreases mv.len() - k,
{
    if k < mv.len() {
        assert(mv.take(k + 1).drop_last() =~= mv.take(k));
        lemma_expand_none_extends(line, mv, k + 1);
    } else {
        assert(mv.take(k) =~= mv);
    }
}

/// Defines the macro `name` as `body`, in the place of an earlier
/// definition of it.
fn define(macros: &mut Vec<(String, String)>, name: String, body: String)
    ensures
        macro_views(final(macros)@) == define_macro(macro_views(old(macros)@), name@, body@),
{
    let ghost mv = macro_views(macros@);
    let mut i: usize = 0;
    while i < macros.len()
        invariant
            i <= macros@.len(),
            macros@ == old(macros)@,
            mv == macro_views(macros@),
            find_macro(mv, name@, 0) == find_macro(mv, name@, i as int),
        decreases macros@.len() - i,
    {
        if str_eq(macros[i].0.as_str(), name.as_str()) {
            macros.set(i, (name, body));
            proof {
                assert(macro_views(macros@) =~= mv.update(i as int, (name@, body@)));
            }
            return;
        }
        i = i + 1;
    }
    macros.push((name, body));
    proof {
        assert(macro_views(macros@) =~= mv.push((name@, body@)));
    }
}

// ----- Lookups in the include table -----


/// The contents of the file at `loc`.
fn find_file<'a>(table: &'a IncludeTable, loc: &str) -> (r: Option<&'a Option<String>>)
    ensures
        match r {
            Some(c) => lookup_file(table@, loc@, 0) == Some(opt_view(*c)),
            None => lookup_file(table@, loc@, 0) is None,
        },
{
    let ghost ctx = table@;
    let mut i: usize = 0;
    while i < table.files.len()
        invariant
            i <= table.files@.len(),
            ctx == table@,
            lookup_file(ctx, loc@, 0) == lookup_file(ctx, loc@, i as int),
        decreases table.files@.len() - i,
    {
        if str_eq(table.files[i].0.as_str(), loc) {
            return Some(&table.files[i].1);
        }
        i = i + 1;
    }
    None
}

/// Whether `loc` was included before.
fn contains_string(v: &Vec<String>, loc: &str) -> (r: bool)
    ensures
        r == views(v@).contains(loc@),
{
    let mut i: usize = 0;
    while i < v.len()
        invariant
            i <= v@.len(),
            forall|j: int| 0 <= j < i ==> #[trigger] views(v@)[j] != loc@,
        decreases v@.len() - i,
    {
        if str_eq(v[i].as_str(), loc) {
            proof {
                assert(views(v@)[i as int] == loc@);
            }
            return true;
        }
        i = i + 1;
    }
    false
}

// ----- The preprocessor -----

/// Preprocesses `text`, the contents of the file at `current_file_path`,
/// with the places included so far and the macros defined so far, which it
/// adds to. `None` where a macro name is no valid pattern, where a file
/// includes itself, or where an including file has no directory.
pub fn preprocess(
    current_file_path: &str,
    text: &str,
    already_include: &mut Vec<String>,
    macros: &mut Vec<(String, String)>,
    table: &IncludeTable,
) -> (r: Option<Preprocessed>)
    ensures
        pp_text(
            table@,
            current_file_path@,
            text@,
            PPState { included: views(old(already_include)@), macros: macro_views(old(macros)@) },
            table.files@.len() as nat,
        ) == outcome(final(already_include)@, final(macros)@, r),
        r is Some && distinct_names(macro_views(old(macros)@)) ==> distinct_names(macro_views(final(macros)@)),
{
    proof {
        if distinct_names(macro_views(old(macros)@)) {
            lemma_pp_text_distinct(
                table@,
                current_file_path@,
                text@,
                PPState { included: views(old(already_include)@), macros: macro_views(old(macros)@) },
                table.files@.len() as nat,
            );
        }
    }
    process(table, current_file_path, text, already_include, macros, table.files.len())
}

/// Preprocesses `text`, the contents of the file `cur`, with includes nested
/// at most `fuel` deep.
fn process(
    table: &IncludeTable,
    cur: &str,
    text: &str,
    included: &mut Vec<String>,
    macros: &mut Vec<(String, String)>,
    fuel: usize,
) -> (r: Option<Preprocessed>)
    ensures
        pp_text(
            table@,
            cur@,
            text@,
            PPState { included: views(old(included)@), macros: macro_views(old(macros)@) },
            fuel as nat,
        ) == outcome(final(included)@, final(macros)@, r),
    decreases fuel, 3int, 0int,
{
    let ghost ctx = table@;
    let ghost st0 = PPState { included: views(included@), macros: macro_views(macros@) };
    let lines = split_lines(text);
    let ghost lv = views(lines@);
    let mut acc = String::new();
    let mut i: usize = 0;
    while i < lines.len()
        invariant
            ctx == table@,
            lv == views(lines@),
            lv == text_lines(text@),
            st0 == (PPState { included: views(old(included)@), macros: macro_views(old(macros)@) }),
            i <= lines@.len(),
            pp_text(ctx, cur@, text@, st0, fuel as nat) == pp_lines(
                ctx,
                cur@,
                lv,
                i as int,
                PPState { included: views(included@), macros: macro_views(macros@) },
                acc@,
                fuel as nat,
            ),
        decreases lines@.len() - i,
    {
        let ghost st = PPState { included: views(included@), macros: macro_views(macros@) };
        let line = chars_of(lines[i].as_str());
        proof {
            assert(line@ == lv[i as int]);
        }
        if line.len() > 0 && line[0] == '#' {
            if line.len() > 1 && line[1] == ' ' {
                proof {
                    assert(line@.drop_first()[0] == line@[1]);
                }
                i = i + 1;
                continue;
            }
            let mut rest: Vec<char> = Vec::new();
            let mut j: usize = 1;
            while j < line.len()
                invariant
                    1 <= j <= line@.len(),
                    rest@ == line@.subrange(1, j as int),
                decreases line@.len() - j,
            {
                rest.push(line[j]);
                proof {
                    assert(rest@ =~= line@.subrange(1, j + 1));
                }
                j = j + 1;
            }
            proof {
                assert(rest@ =~= line@.drop_first());
            }
            let (a, b) = trim_bounds(&rest);
            if a == b {
                let m = line_message_of("empty preprocessor directive in line ", i);
                return Some(Preprocessed::Error(m));
            }
            let mut trimmed: Vec<char> = Vec::new();
            let mut j: usize = a;
            while j < b
                invariant
                    a <= j <= b,
                    b <= rest@.len(),
                    trimmed@ == rest@.subrange(a as int, j as int),
                decreases b - j,
            {
                trimmed.push(rest[j]);
                proof {
                    assert(trimmed@ =~= rest@.subrange(a as int, j + 1));
                }
                j = j + 1;
            }
            let k = space_index(&trimmed, 0);
            let command = string_from(&trimmed, 0, k);
            let args_start = if k < trimmed.len() { k + 1 } else { trimmed.len() };
            let args = string_from(&trimmed, args_start, trimmed.len());
            proof {
                assert(command@ == before_space(trimmed@));
                assert(args@ == after_space(trimmed@));
            }
            if str_eq(command.as_str(), "include") {
                let res = included_text(table, cur, args.as_str(), included, macros, fuel);
                match res {
                    None => {
                        return None;
                    },
                    Some(Preprocessed::Text(t)) => {
                        let ghost acc0 = acc@;
                        acc.append(t.as_str());
                        proof {
                            assert(pp_lines(ctx, cur@, lv, i as int, st, acc0, fuel as nat) == pp_lines(
                                ctx,
                                cur@,
                                lv,
                                i + 1,
                                PPState { included: views(included@), macros: macro_views(macros@) },
                                acc@,
                                fuel as nat,
                            ));
                        }
                    },
                    Some(other) => {
                        return Some(other);
                    },
                }
            } else if str_eq(command.as_str(), "macro") {
                let args_chars = chars_of(args.as_str());
                let k2 = space_index(&args_chars, 0);
                if k2 == args_chars.len() {
                    let m = line_message_of("macro directive requires at least 2 arguments in line ", i);
                    return Some(Preprocessed::Error(m));
                }
                let name = string_from(&args_chars, 0, k2);
                let mut body = string_of("(");
                let after = string_from(&args_chars, k2 + 1, args_chars.len());
                body.append(after.as_str());
                body.append(")");
                proof {
                    assert(name@ == before_space(args@));
                    assert(after@ == after_space(args@));
                }
                match expand_macros(body.as_str(), macros) {
                    None => {
                        return None;
                    },
                    Some(b) => {
                        define(macros, name, b);
                        proof {
                            assert(pp_lines(ctx, cur@, lv, i as int, st, acc@, fuel as nat) == pp_lines(
                                ctx,
                                cur@,
                                lv,
                                i + 1,
                                PPState { included: views(included@), macros: macro_views(macros@) },
                                acc@,
                                fuel as nat,
                            ));
                        }
                    },
                }
            } else {
                let mut m = string_of("unknown preprocessor directive '");
                m.append(command.as_str());
                let tail = line_message_of("' in line ", i);
                m.append(tail.as_str());
                return Some(Preprocessed::Error(m));
            }
        } else {
            match expand_macros(lines[i].as_str(), macros) {
                None => {
                    return None;
                },
                Some(l) => {
                    let ghost acc0 = acc@;
                    acc.append(l.as_str());
                    string_push(&mut acc, '\n');
                    proof {
                        assert(acc@ =~= acc0 + l@ + "\n"@) by {
                            reveal_strlit("\n");
                        }
                        assert(pp_lines(ctx, cur@, lv, i as int, st, acc0, fuel as nat) == pp_lines(
                            ctx,
                            cur@,
                            lv,
                            i + 1,
                            st,
                            acc@,
                            fuel as nat,
                        ));
                    }
                },
            }
        }
        i = i + 1;
    }
    Some(Preprocessed::Text(acc))
}

/// `#include file_path` in `cur`: tries the places next to `cur`, then in
/// each include directory, in order.
fn included_text(
    table: &IncludeTable,
    cur: &str,
    file_path: &str,
    included: &mut Vec<String>,
    macros: &mut Vec<(String, String)>,
    fuel: usize,
) -> (r: Option<Preprocessed>)
    ensures
        pp_include(
            table@,
            cur@,
            file_path@,
            PPState { included: views(old(included)@), macros: macro_views(old(macros)@) },
            fuel as nat,
        ) == outcome(final(included)@, final(macros)@, r),
    decreases fuel, 1int, 0int,
{
    let ghost ctx = table@;
    let locs = match locations(cur, file_path, &table.include_paths) {
        Some(l) => l,
        None => {
            return None;
        },
    };
    proof {
        assert(texts(table.include_paths@) =~= views(table.include_paths@));
        assert(texts(locs@) =~= views(locs@));
    }
    let ghost lv = views(locs@);
    let ghost st0 = PPState { included: views(included@), macros: macro_views(macros@) };
    let mut k: usize = 0;
    while k < locs.len()
        invariant
            ctx == table@,
            lv == views(locs@),
            k <= locs@.len(),
            st0 == (PPState { included: views(included@), macros: macro_views(macros@) }),
            st0 == (PPState { included: views(old(included)@), macros: macro_views(old(macros)@) }),
            pp_include(ctx, cur@, file_path@, st0, fuel as nat) == pp_try(ctx, file_path@, lv, k as int, st0, fuel as nat),
        decreases locs@.len() - k,
    {
        let loc = locs[k].as_str();
        proof {
            assert(loc@ == lv[k as int]);
        }
        if contains_string(included, loc) {
            return Some(Preprocessed::Text(String::new()));
        }
        match find_file(table, loc) {
            None => {
                return Some(Preprocessed::NeedFile(string_of(loc)));
            },
            Some(None) => {},
            Some(Some(content)) => {
                if fuel == 0 {
                    return None;
                }
                let res = process(table, loc, content.as_str(), included, macros, fuel - 1);
                proof {
                    assert(lookup_file(ctx, loc@, 0) == Some(Some(content@)));
                    assert(pp_try(ctx, file_path@, lv, k as int, st0, fuel as nat) == match pp_text(ctx, loc@, content@, st0, (fuel - 1) as nat) {
                        None => None,
                        Some((st2, out)) => match out {
                            PPOut::Error(e) => Some(
                                (st2, PPOut::Error("error preprocessing included file "@ + loc@ + ": "@ + e)),
                            ),
                            PPOut::Text(t) => Some(
                                (PPState { included: st2.included.push(loc@), ..st2 }, PPOut::Text(t + "\n"@)),
                            ),
                            _ => Some((st2, out)),
                        },
                    });
                }
                match res {
                    None => {
                        return None;
                    },
                    Some(Preprocessed::Error(e)) => {
                        let mut m = string_of("error preprocessing included file ");
                        m.append(loc);
                        m.append(": ");
                        m.append(e.as_str());
                        return Some(Preprocessed::Error(m));
                    },
                    Some(Preprocessed::Text(t)) => {
                        let ghost before = included@;
                        included.push(string_of(loc));
                        proof {
                            assert(views(included@) =~= views(before).push(loc@));
                        }
                        let mut t2 = t;
                        string_push(&mut t2, '\n');
                        proof {
                            assert(t2@ =~= t@ + "\n"@) by {
                                reveal_strlit("\n");
                            }
                        }
                        return Some(Preprocessed::Text(t2));
                    },
                    Some(other) => {
                        return Some(other);
                    },
                }
            },
        }
        k = k + 1;
    }
    let mut m = string_of("could not find included file ");
    m.append(file_path);
    Some(Preprocessed::Error(m))
}

// ----- Laws -----

/// A line that does not start with `#` — whatever its first character,
/// white space included — is written out with every macro defined so far
/// replaced in it, followed by a newline; nothing else changes.
pub proof fn law_plain_line_is_expanded(
    ctx: PPCtx,
    cur: Seq<char>,
    lines: Seq<Seq<char>>,
    i: int,
    st: PPState,
    acc: Seq<char>,
    fuel: nat,
)
    requires
        0 <= i < lines.len(),
        lines[i].len() == 0 || lines[i][0] != '#',
    ensures
        pp_lines(ctx, cur, lines, i, st, acc, fuel) == match expand(lines[i], st.macros) {
            None => None,
            Some(l) => pp_lines(ctx, cur, lines, i + 1, st, acc + l + "\n"@, fuel),
        },
{
}

/// The lines from `i` on, each with the macros replaced and followed by a
/// newline; `None` where a macro name is no valid pattern.
pub open spec fn expanded_lines(lines: Seq<Seq<char>>, macros: Seq<(Seq<char>, Seq<char>)>, i: int) -> Option<Seq<char>>
    decreases lines.len() - i,
{
    if i < 0 || i >= lines.len() {
        Some(Seq::empty())
    } else {
        match (expand(lines[i], macros), expanded_lines(lines, macros, i + 1)) {
            (Some(l), Some(rest)) => Some(l + "\n"@ + rest),
            _ => None,
        }
    }
}

proof fn lemma_plain_lines(
    ctx: PPCtx,
    cur: Seq<char>,
    lines: Seq<Seq<char>>,
    i: int,
    st: PPState,
    acc: Seq<char>,
    fuel: nat,
)
    requires
        0 <= i,
        forall|j: int| 0 <= j < lines.len() ==> (#[trigger] lines[j]).len() == 0 || lines[j][0] != '#',
    ensures
        pp_lines(ctx, cur, lines, i, st, acc, fuel) == match expanded_lines(lines, st.macros, i) {
            Some(t) => Some((st, PPOut::Text(acc + t))),
            None => None,
        },
    decreases lines.len() - i,
{
    if i < lines.len() {
        law_plain_line_is_expanded(ctx, cur, lines, i, st, acc, fuel);
        match expand(lines[i], st.macros) {
            Some(l) => {
                lemma_plain_lines(ctx, cur, lines, i + 1, st, acc + l + "\n"@, fuel);
                match expanded_lines(lines, st.macros, i + 1) {
                    Some(rest) => {
                        assert(acc + l + "\n"@ + rest =~= acc + (l + "\n"@ + rest));
                    },
                    None => {},
                }
            },
            None => {},
        }
    } else {
        assert(acc + Seq::<char>::empty() =~= acc);
    }
}

/// A text without directives (no line starts with `#`) comes out as its
/// lines, each with every macro defined before it replaced and followed by
/// a newline; the macros and the included places stay as they were.
pub proof fn law_text_without_directives(ctx: PPCtx, cur: Seq<char>, text: Seq<char>, st: PPState, fuel: nat)
    requires
        forall|j: int| 0 <= j < text_lines(text).len() ==> (#[trigger] text_lines(text)[j]).len() == 0
            || text_lines(text)[j][0] != '#',
    ensures
        pp_text(ctx, cur, text, st, fuel) == match expanded_lines(text_lines(text), st.macros, 0) {
            Some(t) => Some((st, PPOut::Text(t))),
            None => None,
        },
{
    lemma_plain_lines(ctx, cur, text_lines(text), 0, st, Seq::empty(), fuel);
    match expanded_lines(text_lines(text), st.macros, 0) {
        Some(t) => assert(Seq::<char>::empty() + t =~= t),
        None => {},
    }
}

/// A line that starts with `# ` is a comment: it adds nothing and changes
/// nothing.
pub proof fn law_comment_is_skipped(
    ctx: PPCtx,
    cur: Seq<char>,
    lines: Seq<Seq<char>>,
    i: int,
    st: PPState,
    acc: Seq<char>,
    fuel: nat,
)
    requires
        0 <= i < lines.len(),
        lines[i].len() >= 2,
        lines[i][0] == '#',
        lines[i][1] == ' ',
    ensures
        pp_lines(ctx, cur, lines, i, st, acc, fuel) == pp_lines(ctx, cur, lines, i + 1, st, acc, fuel),
{
    assert(lines[i].drop_first()[0] == lines[i][1]);
}

/// A place that was included before is not read again: its include adds
/// nothing.
pub proof fn law_included_once(
    ctx: PPCtx,
    file_path: Seq<char>,
    locs: Seq<Seq<char>>,
    k: int,
    st: PPState,
    fuel: nat,
)
    requires
        0 <= k < locs.len(),
        st.included.contains(locs[k]),
    ensures
        pp_try(ctx, file_path, locs, k, st, fuel) == Some((st, PPOut::Text(Seq::empty()))),
{
}

/// A place that is included is recorded as included.
pub proof fn law_include_records(
    ctx: PPCtx,
    file_path: Seq<char>,
    locs: Seq<Seq<char>>,
    k: int,
    st: PPState,
    fuel: nat,
)
    requires
        0 <= k < locs.len(),
        !st.included.contains(locs[k]),
        lookup_file(ctx, locs[k], 0) matches Some(Some(_)),
        pp_try(ctx, file_path, locs, k, st, fuel) matches Some((_, PPOut::Text(_))),
    ensures
        (pp_try(ctx, file_path, locs, k, st, fuel)->0).0.included.contains(locs[k]),
{
    let st2 = (pp_try(ctx, file_path, locs, k, st, fuel)->0).0;
    assert(st2.included[st2.included.len() - 1] == locs[k]);
}

/// Defining a macro makes its name find the new body, whether it was
/// defined before or not: the latest definition wins.
pub proof fn law_macro_redefinition(macros: Seq<(Seq<char>, Seq<char>)>, name: Seq<char>, body: Seq<char>)
    ensures
        ({
            let m2 = define_macro(macros, name, body);
            &&& find_macro(m2, name, 0) is Some
            &&& m2[find_macro(m2, name, 0)->0] == (name, body)
        }),
{
    lemma_find_macro_range(macros, name, 0);
    let m2 = define_macro(macros, name, body);
    match find_macro(macros, name, 0) {
        Some(i) => lemma_find_macro_at(macros, m2, name, 0, i),
        None => lemma_find_macro_at(macros, m2, name, 0, macros.len() as int),
    }
}

proof fn lemma_find_macro_range(macros: Seq<(Seq<char>, Seq<char>)>, name: Seq<char>, i: int)
    requires
        0 <= i,
    ensures
        match find_macro(macros, name, i) {
            Some(k) => i <= k < macros.len() && macros[k].0 == name
                && forall|j: int| i <= j < k ==> macros[j].0 != name,
            None => forall|j: int| i <= j < macros.len() ==> macros[j].0 != name,
        },
    decreases macros.len() - i,
{
    if i < macros.len() && macros[i].0 != name {
        lemma_find_macro_range(macros, name, i + 1);
    }
}

proof fn lemma_find_macro_at(
    macros: Seq<(Seq<char>, Seq<char>)>,
    m2: Seq<(Seq<char>, Seq<char>)>,
    name: Seq<char>,
    i: int,
    k: int,
)
    requires
        0 <= i <= k < m2.len(),
        m2[k].0 == name,
        forall|j: int| i <= j < k ==> m2[j] == macros[j] && macros[j].0 != name,
    ensures
        find_macro(m2, name, i) == Some(k),
    decreases k - i,
{
    if i < k {
        lemma_find_macro_at(macros, m2, name, i + 1, k);
    }
}

} // verus!
