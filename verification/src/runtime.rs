//! A small stack machine: its instruction set, the bytes that encode a
//! program, and the machine that runs them.
use vstd::prelude::*;
use vstd::bytes::{spec_u32_to_le_bytes, spec_u32_from_le_bytes, u32_to_le_bytes, u32_from_le_bytes};
use crate::text::{str_eq, chars_of, string_push, parse_u64, parse_unsigned};
use crate::preprocessor::{char_whitespace, is_whitespace, trim, trim_bounds};

verus! {

/// The width of an operand in bytes.
pub const WORD_SIZE: usize = 4;

/// The instructions of the machine.
#[derive(Debug, PartialEq, Eq, Structural, Copy, Clone)]
pub enum Instructions {
    Fetch,
    Store,
    Push,
    Add,
    Sub,
    Mul,
    Div,
    Mod,
    Lt,
    Gt,
    Lte,
    Gte,
    Eq,
    Ne,
    And,
    Or,
    Not,
    Jmp,
    Jz,
    Prtc,
    Prts,
    Prti,
    Halt,
}

impl Instructions {
    /// The byte that encodes the instruction: its place in the list above.
    pub open spec fn spec_opcode(self) -> u8 {
        match self {
            Instructions::Fetch => 0,
            Instructions::Store => 1,
            Instructions::Push => 2,
            Instructions::Add => 3,
            Instructions::Sub => 4,
            Instructions::Mul => 5,
            Instructions::Div => 6,
            Instructions::Mod => 7,
            Instructions::Lt => 8,
            Instructions::Gt => 9,
            Instructions::Lte => 10,
            Instructions::Gte => 11,
            Instructions::Eq => 12,
            Instructions::Ne => 13,
            Instructions::And => 14,
            Instructions::Or => 15,
            Instructions::Not => 16,
            Instructions::Jmp => 17,
            Instructions::Jz => 18,
            Instructions::Prtc => 19,
            Instructions::Prts => 20,
            Instructions::Prti => 21,
            Instructions::Halt => 22,
        }
    }

    pub fn opcode(&self) -> (r: u8)
        ensures
            r == self.spec_opcode(),
    {
        match self {
            Instructions::Fetch => 0,
            Instructions::Store => 1,
            Instructions::Push => 2,
            Instructions::Add => 3,
            Instructions::Sub => 4,
            Instructions::Mul => 5,
            Instructions::Div => 6,
            Instructions::Mod => 7,
            Instructions::Lt => 8,
            Instructions::Gt => 9,
            Instructions::Lte => 10,
            Instructions::Gte => 11,
            Instructions::Eq => 12,
            Instructions::Ne => 13,
            Instructions::And => 14,
            Instructions::Or => 15,
            Instructions::Not => 16,
            Instructions::Jmp => 17,
            Instructions::Jz => 18,
            Instructions::Prtc => 19,
            Instructions::Prts => 20,
            Instructions::Prti => 21,
            Instructions::Halt => 22,
        }
    }
}

/// The instruction with the mnemonic `name`.
pub open spec fn spec_instruction(name: Seq<char>) -> Option<Instructions> {
    if name == "fetch"@ {
        Some(Instructions::Fetch)
    } else if name == "store"@ {
        Some(Instructions::Store)
    } else if name == "push"@ {
        Some(Instructions::Push)
    } else if name == "add"@ {
        Some(Instructions::Add)
    } else if name == "sub"@ {
        Some(Instructions::Sub)
    } else if name == "mul"@ {
        Some(Instructions::Mul)
    } else if name == "div"@ {
        Some(Instructions::Div)
    } else if name == "mod"@ {
        Some(Instructions::Mod)
    } else if name == "lt"@ {
        Some(Instructions::Lt)
    } else if name == "gt"@ {
        Some(Instructions::Gt)
    } else if name == "lte"@ {
        Some(Instructions::Lte)
    } else if name == "gte"@ {
        Some(Instructions::Gte)
    } else if name == "eq"@ {
        Some(Instructions::Eq)
    } else if name == "ne"@ {
        Some(Instructions::Ne)
    } else if name == "and"@ {
        Some(Instructions::And)
    } else if name == "or"@ {
        Some(Instructions::Or)
    } else if name == "not"@ {
        Some(Instructions::Not)
    } else if name == "jmp"@ {
        Some(Instructions::Jmp)
    } else if name == "jz"@ {
        Some(Instructions::Jz)
    } else if name == "prtc"@ {
        Some(Instructions::Prtc)
    } else if name == "prts"@ {
        Some(Instructions::Prts)
    } else if name == "prti"@ {
        Some(Instructions::Prti)
    } else if name == "halt"@ {
        Some(Instructions::Halt)
    } else {
        None
    }
}

/// The instruction with the mnemonic `name`, if there is one.
pub fn get_instruction(name: &str) -> (r: Option<Instructions>)
    ensures
        r == spec_instruction(name@),
{
    if str_eq(name, "fetch") {
        Some(Instructions::Fetch)
    } else if str_eq(name, "store") {
        Some(Instructions::Store)
    } else if str_eq(name, "push") {
        Some(Instructions::Push)
    } else if str_eq(name, "add") {
        Some(Instructions::Add)
    } else if str_eq(name, "sub") {
        Some(Instructions::Sub)
    } else if str_eq(name, "mul") {
        Some(Instructions::Mul)
    } else if str_eq(name, "div") {
        Some(Instructions::Div)
    } else if str_eq(name, "mod") {
        Some(Instructions::Mod)
    } else if str_eq(name, "lt") {
        Some(Instructions::Lt)
    } else if str_eq(name, "gt") {
        Some(Instructions::Gt)
    } else if str_eq(name, "lte") {
        Some(Instructions::Lte)
    } else if str_eq(name, "gte") {
        Some(Instructions::Gte)
    } else if str_eq(name, "eq") {
        Some(Instructions::Eq)
    } else if str_eq(name, "ne") {
        Some(Instructions::Ne)
    } else if str_eq(name, "and") {
        Some(Instructions::And)
    } else if str_eq(name, "or") {
        Some(Instructions::Or)
    } else if str_eq(name, "not") {
        Some(Instructions::Not)
    } else if str_eq(name, "jmp") {
        Some(Instructions::Jmp)
    } else if str_eq(name, "jz") {
        Some(Instructions::Jz)
    } else if str_eq(name, "prtc") {
        Some(Instructions::Prtc)
    } else if str_eq(name, "prts") {
        Some(Instructions::Prts)
    } else if str_eq(name, "prti") {
        Some(Instructions::Prti)
    } else if str_eq(name, "halt") {
        Some(Instructions::Halt)
    } else {
        None
    }
}

/// The bytes of an operand, lowest first.
pub open spec fn word_bytes(w: u32) -> Seq<u8> {
    spec_u32_to_le_bytes(w)
}

/// The operand that four bytes encode, lowest first.
pub open spec fn word_of(b: Seq<u8>) -> u32 {
    spec_u32_from_le_bytes(b)
}

/// Appends one byte to the code.
pub fn emit_byte(c: &mut Vec<u8>, b: u8)
    ensures
        final(c)@ == old(c)@.push(b),
{
    c.push(b);
}

/// Appends the bytes of an operand to the code.
pub fn emit_word(c: &mut Vec<u8>, w: u32)
    ensures
        final(c)@ == old(c)@ + word_bytes(w),
{
    let bytes = u32_to_le_bytes(w);
    proof {
        vstd::bytes::lemma_auto_spec_u32_to_from_le_bytes();
    }
    let mut i: usize = 0;
    while i < bytes.len()
        invariant
            bytes@ == word_bytes(w),
            bytes@.len() == 4,
            i <= 4,
            c@ == old(c)@ + bytes@.take(i as int),
        decreases 4 - i,
    {
        c.push(bytes[i]);
        proof {
            assert(bytes@.take(i + 1) =~= bytes@.take(i as int).push(bytes@[i as int]));
        }
        i = i + 1;
    }
    proof {
        assert(bytes@.take(4) =~= bytes@);
    }
}

/// The code with the operand at `n` replaced by `w`, or, where `n` is the
/// end of the code, with `w` appended.
pub open spec fn spec_emit_word_at(c: Seq<u8>, w: u32, n: int) -> Seq<u8> {
    if n >= c.len() {
        c + word_bytes(w)
    } else {
        c.subrange(0, n) + word_bytes(w) + c.subrange(n + 4, c.len() as int)
    }
}

/// Writes the bytes of an operand at `n`; `n` is the end of the code or
/// the start of an operand within it.
pub fn emit_word_at(c: &mut Vec<u8>, w: u32, n: usize)
    requires
        n == old(c)@.len() || n + WORD_SIZE <= old(c)@.len(),
    ensures
        final(c)@ == spec_emit_word_at(old(c)@, w, n as int),
{
    if n >= c.len() {
        emit_word(c, w);
        return;
    }

    let bytes = u32_to_le_bytes(w);
    proof {
        vstd::bytes::lemma_auto_spec_u32_to_from_le_bytes();
    }
    let ghost c0 = c@;
    let clen = c.len();
    let mut i: usize = 0;
    while i < 4
        invariant
            clen == c0.len(),
            bytes@ == word_bytes(w),
            bytes@.len() == 4,
            i <= 4,
            n + 4 <= c0.len(),
            c@.len() == c0.len(),
            forall|j: int| 0 <= j < c0.len() ==> #[trigger] c@[j] == (if n <= j < n + i {
                bytes@[j - n]
            } else {
                c0[j]
            }),
        decreases 4 - i,
    {
        c.set(n + i, bytes[i]);
        i = i + 1;
    }
    proof {
        assert(c@ =~= c0.subrange(0, n as int) + word_bytes(w) + c0.subrange(n + 4, c0.len() as int));
    }
}

/// Appends a zero operand, to be filled in later, and gives the length of
/// the code after it.
pub fn hole(c: &mut Vec<u8>) -> (r: usize)
    ensures
        final(c)@ == old(c)@ + word_bytes(0),
        r == final(c)@.len(),
{
    emit_word(c, 0);
    c.len()
}

/// The stack after running the code from `pc` on: `None` where the machine
/// stops on an error (the code ends without `halt`, an operand is missing,
/// a result does not fit in a word, or a division by zero).
pub open spec fn vm_run(code: Seq<u8>, stack: Seq<u32>, pc: int) -> Option<Seq<u32>>
    decreases code.len() - pc,
{
    if pc < 0 || pc >= code.len() {
        None
    } else {
        let op = code[pc];
        let pc1 = pc + 1;
        let len = stack.len();
        if op == Instructions::Push.spec_opcode() {
            if pc1 + 4 > code.len() {
                None
            } else {
                vm_run(code, stack.push(word_of(code.subrange(pc1, pc1 + 4))), pc1 + 4)
            }
        } else if op == Instructions::Halt.spec_opcode() {
            Some(stack)
        } else if op == Instructions::Add.spec_opcode() || op == Instructions::Sub.spec_opcode()
            || op == Instructions::Mul.spec_opcode() || op == Instructions::Div.spec_opcode()
            || op == Instructions::Mod.spec_opcode() || op == Instructions::Eq.spec_opcode() {
            if len < 2 {
                None
            } else {
                let a = stack[len - 2];
                let b = stack[len - 1];
                match binary_result(op, a, b) {
                    None => None,
                    Some(v) => vm_run(code, stack.drop_last().update(len - 2, v), pc1),
                }
            }
        } else {
            vm_run(code, stack, pc1)
        }
    }
}

/// What a binary instruction makes of `a` and `b`, the operand below and
/// the operand on top; `None` where the result does not fit or `b` is a
/// zero divisor.
pub open spec fn binary_result(op: u8, a: u32, b: u32) -> Option<u32> {
    if op == Instructions::Add.spec_opcode() {
        if a + b > u32::MAX { None } else { Some((a + b) as u32) }
    } else if op == Instructions::Sub.spec_opcode() {
        if a < b { None } else { Some((a - b) as u32) }
    } else if op == Instructions::Mul.spec_opcode() {
        if a * b > u32::MAX { None } else { Some((a * b) as u32) }
    } else if op == Instructions::Div.spec_opcode() {
        if b == 0 { None } else { Some(a / b) }
    } else if op == Instructions::Mod.spec_opcode() {
        if b == 0 { None } else { Some(a % b) }
    } else {
        Some(if a == b { 1 } else { 0 })
    }
}

/// What a binary instruction makes of its two operands, where it is
/// defined.
fn checked_binary(op: u8, a: u32, b: u32) -> (r: Option<u32>)
    ensures
        r == binary_result(op, a, b),
{
    if op == Instructions::Add.opcode() {
        a.checked_add(b)
    } else if op == Instructions::Sub.opcode() {
        a.checked_sub(b)
    } else if op == Instructions::Mul.opcode() {
        a.checked_mul(b)
    } else if op == Instructions::Div.opcode() {
        if b == 0 { None } else { Some(a / b) }
    } else if op == Instructions::Mod.opcode() {
        if b == 0 { None } else { Some(a % b) }
    } else if a == b {
        Some(1)
    } else {
        Some(0)
    }
}

/// `n` zeros.
pub open spec fn zeros(n: nat) -> Seq<u32> {
    Seq::new(n, |i: int| 0u32)
}

/// Runs the code with `data_size` zero words on the stack, up to `halt`,
/// and gives the stack; `None` where the machine stops on an error.
pub fn run_machine(code: &Vec<u8>, data_size: usize) -> (r: Option<Vec<u32>>)
    ensures
        match r {
            Some(s) => vm_run(code@, zeros(data_size as nat), 0) == Some(s@),
            None => vm_run(code@, zeros(data_size as nat), 0) is None,
        },
{
    let mut stack: Vec<u32> = Vec::new();
    let mut k: usize = 0;
    while k < data_size
        invariant
            k <= data_size,
            stack@ == zeros(k as nat),
        decreases data_size - k,
    {
        stack.push(0);
        proof {
            assert(stack@ =~= zeros((k + 1) as nat));
        }
        k = k + 1;
    }
    let mut pc: usize = 0;
    let code_len = code.len();

    loop
        invariant
            code_len == code@.len(),
            pc <= code@.len(),
            vm_run(code@, stack@, pc as int) == vm_run(code@, zeros(data_size as nat), 0),
        decreases code@.len() - pc,
    {
        if pc >= code_len {
            return None;
        }
        let len = stack.len();
        let op = code[pc];
        pc = pc + 1;

        if op == Instructions::Fetch.opcode() {
        } else if op == Instructions::Store.opcode() {
        } else if op == Instructions::Push.opcode() {
            if code_len < WORD_SIZE || pc > code_len - WORD_SIZE {
                return None;
            }
            let mut word: Vec<u8> = Vec::new();
            let mut i: usize = 0;
            while i < WORD_SIZE
                invariant
                    code_len == code@.len(),
                    pc + WORD_SIZE <= code@.len(),
                    i <= WORD_SIZE,
                    word@ == code@.subrange(pc as int, pc + i),
                decreases WORD_SIZE - i,
            {
                word.push(code[pc + i]);
                proof {
                    assert(word@ =~= code@.subrange(pc as int, pc + i + 1));
                }
                i = i + 1;
            }
            stack.push(u32_from_le_bytes(word.as_slice()));
            pc = pc + WORD_SIZE;
        } else if op == Instructions::Add.opcode() || op == Instructions::Sub.opcode()
            || op == Instructions::Mul.opcode() || op == Instructions::Div.opcode()
            || op == Instructions::Mod.opcode() || op == Instructions::Eq.opcode() {
            if len < 2 {
                return None;
            }
            let ghost before = stack@;
            let v = match checked_binary(op, stack[len - 2], stack[len - 1]) {
                Some(v) => v,
                None => {
                    return None;
                },
            };
            stack.set(len - 2, v);
            stack.pop();
            proof {
                assert(stack@ =~= before.drop_last().update(len - 2, v));
            }
        } else if op == Instructions::Halt.opcode() {
            return Some(stack);
        }
    }
}

/// Runs the code with `data_size` zero words on the stack, up to `halt`,
/// and gives the stack. The code must run without an error.
pub fn vm(code: &Vec<u8>, data_size: usize, _string_pool: Vec<String>) -> (r: Vec<u32>)
    requires
        vm_run(code@, zeros(data_size as nat), 0) is Some,
    ensures
        Some(r@) == vm_run(code@, zeros(data_size as nat), 0),
{
    match run_machine(code, data_size) {
        Some(s) => s,
        None => unreached(),
    }
}

/// The code of `push w` followed by `halt` leaves the stack with `w` on
/// top: what `emit_word` writes, the machine reads back.
pub proof fn law_push_then_halt(stack: Seq<u32>, w: u32)
    ensures
        vm_run(
            seq![Instructions::Push.spec_opcode()] + word_bytes(w) + seq![Instructions::Halt.spec_opcode()],
            stack,
            0,
        ) == Some(stack.push(w)),
{
    let code = seq![Instructions::Push.spec_opcode()] + word_bytes(w) + seq![Instructions::Halt.spec_opcode()];
    vstd::bytes::lemma_auto_spec_u32_to_from_le_bytes();
    assert(word_bytes(w).len() == 4);
    assert(code.subrange(1, 5) =~= word_bytes(w));
    assert(code[0] == Instructions::Push.spec_opcode());
    assert(code[5] == Instructions::Halt.spec_opcode());
    assert(vm_run(code, stack.push(w), 5) == Some(stack.push(w)));
}

/// The code `push a; push b; op; halt`.
pub open spec fn binary_program(a: u32, b: u32, op: u8) -> Seq<u8> {
    seq![Instructions::Push.spec_opcode()] + word_bytes(a) + seq![Instructions::Push.spec_opcode()] + word_bytes(b)
        + seq![op, Instructions::Halt.spec_opcode()]
}

/// What the binary instructions compute: pushing `a` and then `b` and
/// running an instruction leaves one word in their place — the sum, the
/// difference `a - b`, the product, the quotient `a / b`, the remainder
/// `a % b`, or 1 where `a == b` and 0 where not. The machine stops where
/// the sum or product does not fit in a word, where `b > a` for the
/// difference, and where the divisor `b` is zero.
pub proof fn law_binary_instructions(stack: Seq<u32>, a: u32, b: u32)
    ensures
        vm_run(binary_program(a, b, Instructions::Add.spec_opcode()), stack, 0) == (if a + b <= u32::MAX {
            Some(stack.push((a + b) as u32))
        } else {
            None
        }),
        vm_run(binary_program(a, b, Instructions::Sub.spec_opcode()), stack, 0) == (if b <= a {
            Some(stack.push((a - b) as u32))
        } else {
            None
        }),
        vm_run(binary_program(a, b, Instructions::Mul.spec_opcode()), stack, 0) == (if a * b <= u32::MAX {
            Some(stack.push((a * b) as u32))
        } else {
            None
        }),
        vm_run(binary_program(a, b, Instructions::Div.spec_opcode()), stack, 0) == (if b != 0 {
            Some(stack.push(a / b))
        } else {
            None
        }),
        vm_run(binary_program(a, b, Instructions::Mod.spec_opcode()), stack, 0) == (if b != 0 {
            Some(stack.push(a % b))
        } else {
            None
        }),
        vm_run(binary_program(a, b, Instructions::Eq.spec_opcode()), stack, 0) == Some(
            stack.push(if a == b { 1u32 } else { 0u32 }),
        ),
{
    vstd::bytes::lemma_auto_spec_u32_to_from_le_bytes();
    lemma_binary_program(stack, a, b, Instructions::Add.spec_opcode());
    lemma_binary_program(stack, a, b, Instructions::Sub.spec_opcode());
    lemma_binary_program(stack, a, b, Instructions::Mul.spec_opcode());
    lemma_binary_program(stack, a, b, Instructions::Div.spec_opcode());
    lemma_binary_program(stack, a, b, Instructions::Mod.spec_opcode());
    lemma_binary_program(stack, a, b, Instructions::Eq.spec_opcode());
}

proof fn lemma_binary_program(stack: Seq<u32>, a: u32, b: u32, op: u8)
    requires
        3 <= op <= 7 || op == 12,
    ensures
        vm_run(binary_program(a, b, op), stack, 0) == match binary_result(op, a, b) {
            Some(v) => Some(stack.push(v)),
            None => None,
        },
{
    let code = binary_program(a, b, op);
    vstd::bytes::lemma_auto_spec_u32_to_from_le_bytes();
    assert(word_bytes(a).len() == 4);
    assert(word_bytes(b).len() == 4);
    assert(code.len() == 12);
    assert(code.subrange(1, 5) =~= word_bytes(a));
    assert(code.subrange(6, 10) =~= word_bytes(b));
    assert(code[0] == Instructions::Push.spec_opcode());
    assert(code[5] == Instructions::Push.spec_opcode());
    assert(code[10] == op);
    assert(code[11] == Instructions::Halt.spec_opcode());
    let s2 = stack.push(a).push(b);
    match binary_result(op, a, b) {
        Some(v) => {
            assert(s2.drop_last().update(s2.len() - 2, v) =~= stack.push(v));
            assert(vm_run(code, stack.push(v), 11) == Some(stack.push(v)));
        },
        None => {},
    }
    assert(vm_run(code, s2, 10) == match binary_result(op, a, b) {
        Some(v) => Some(stack.push(v)),
        None => None,
    });
    assert(vm_run(code, stack.push(a), 5) == vm_run(code, s2, 10));
}

// ----- The assembler -----

/// The first `c` in `s` at or after `i`.
pub open spec fn char_index(s: Seq<char>, c: char, i: int) -> Option<int>
    decreases s.len() - i,
{
    if i < 0 || i >= s.len() {
        None
    } else if s[i] == c {
        Some(i)
    } else {
        char_index(s, c, i + 1)
    }
}

/// A `c` found is at or after `i`, within `s`, and no `c` comes before it.
pub proof fn lemma_char_index(s: Seq<char>, c: char, i: int)
    requires
        0 <= i,
    ensures
        match char_index(s, c, i) {
            Some(k) => i <= k < s.len() && s[k] == c && forall|j: int| i <= j < k ==> s[j] != c,
            None => forall|j: int| i <= j < s.len() ==> s[j] != c,
        },
    decreases s.len() - i,
{
    if 0 <= i < s.len() && s[i] != c {
        lemma_char_index(s, c, i + 1);
    }
}

/// The pieces of `s` from `start` on between the separators `c`, as
/// `str::split` gives them.
pub open spec fn split_from(s: Seq<char>, c: char, start: int) -> Seq<Seq<char>>
    decreases s.len() - start,
{
    if start < 0 || start > s.len() {
        Seq::empty()
    } else {
        proof {
            lemma_char_index(s, c, start);
        }
        match char_index(s, c, start) {
            None => seq![s.subrange(start, s.len() as int)],
            Some(k) => seq![s.subrange(start, k)] + split_from(s, c, k + 1),
        }
    }
}

pub open spec fn split_char(s: Seq<char>, c: char) -> Seq<Seq<char>> {
    split_from(s, c, 0)
}

/// The first character at or after `i` that is (`ws`) or is not whitespace.
pub open spec fn ws_index(s: Seq<char>, i: int, ws: bool) -> Option<int>
    decreases s.len() - i,
{
    if i < 0 || i >= s.len() {
        None
    } else if char_whitespace(s[i]) == ws {
        Some(i)
    } else {
        ws_index(s, i + 1, ws)
    }
}

pub proof fn lemma_ws_index(s: Seq<char>, i: int, ws: bool)
    requires
        0 <= i,
    ensures
        match ws_index(s, i, ws) {
            Some(k) => i <= k < s.len() && char_whitespace(s[k]) == ws
                && forall|j: int| i <= j < k ==> char_whitespace(s[j]) != ws,
            None => forall|j: int| i <= j < s.len() ==> char_whitespace(s[j]) != ws,
        },
    decreases s.len() - i,
{
    if 0 <= i < s.len() && char_whitespace(s[i]) != ws {
        lemma_ws_index(s, i + 1, ws);
    }
}

/// The words of `s` from `i` on, as `str::split_whitespace` gives them.
pub open spec fn words_from(s: Seq<char>, i: int) -> Seq<Seq<char>>
    decreases s.len() - i,
{
    if i < 0 {
        Seq::empty()
    } else {
        proof {
            lemma_ws_index(s, i, false);
        }
        match ws_index(s, i, false) {
            None => Seq::empty(),
            Some(a) => {
                proof {
                    lemma_ws_index(s, a, true);
                }
                match ws_index(s, a, true) {
                    None => seq![s.subrange(a, s.len() as int)],
                    Some(b) => seq![s.subrange(a, b)] + words_from(s, b),
                }
            },
        }
    }
}

pub open spec fn words(s: Seq<char>) -> Seq<Seq<char>> {
    words_from(s, 0)
}

/// A decimal number read as `str::parse` reads it for an unsigned type
/// whose largest value is `max`.
pub open spec fn parse_bounded(s: Seq<char>, max: nat) -> Option<nat> {
    match parse_unsigned(s) {
        Some(v) => if v <= max { Some(v) } else { None },
        None => None,
    }
}

/// `s` without a leading `[` and a trailing `]`; both must be there.
pub open spec fn strip_brackets(s: Seq<char>) -> Option<Seq<char>> {
    if s.len() >= 2 && s[0] == '[' && s.last() == ']' {
        Some(s.subrange(1, s.len() - 1))
    } else {
        None
    }
}

/// The bytes of one instruction line `offset mnemonic [operand ...]`; `None`
/// where the line is malformed.
pub open spec fn asm_line(line: Seq<char>) -> Option<Seq<u8>> {
    let ws = words(line);
    if ws.len() < 2 {
        None
    } else {
        match (parse_bounded(ws[0], usize::MAX as nat), spec_instruction(ws[1])) {
            (Some(offset), Some(op)) => {
                let opcode = seq![op.spec_opcode()];
                if op == Instructions::Jmp || op == Instructions::Jz {
                    if ws.len() < 4 {
                        None
                    } else {
                        match parse_bounded(ws[3], usize::MAX as nat) {
                            None => None,
                            Some(p) => if offset + 1 > usize::MAX || p < offset + 1 {
                                None
                            } else {
                                Some(opcode + word_bytes((p - (offset + 1)) as u32))
                            },
                        }
                    }
                } else if op == Instructions::Push {
                    if ws.len() < 3 {
                        None
                    } else {
                        match parse_bounded(ws[2], u32::MAX as nat) {
                            None => None,
                            Some(v) => Some(opcode + word_bytes(v as u32)),
                        }
                    }
                } else if op == Instructions::Fetch || op == Instructions::Store {
                    if ws.len() < 3 {
                        None
                    } else {
                        match strip_brackets(ws[2]) {
                            None => None,
                            Some(inner) => match parse_bounded(inner, u32::MAX as nat) {
                                None => None,
                                Some(v) => Some(opcode + word_bytes(v as u32)),
                            },
                        }
                    }
                } else {
                    Some(opcode)
                }
            },
            _ => None,
        }
    }
}

/// The bytes of the instruction lines from `i` on, after `code`.
pub open spec fn asm_lines(lines: Seq<Seq<char>>, i: int, code: Seq<u8>) -> Option<Seq<u8>>
    decreases lines.len() - i,
{
    if i < 0 || i >= lines.len() {
        Some(code)
    } else {
        match asm_line(lines[i]) {
            None => None,
            Some(b) => asm_lines(lines, i + 1, code + b),
        }
    }
}

/// A program in the text form: a first line `data_size,string_size`, then
/// one instruction per line. Gives the code and the data size; `None` where
/// the text is malformed.
pub open spec fn spec_assemble(text: Seq<char>) -> Option<(Seq<u8>, usize)> {
    let lines = split_char(trim(text), '\n');
    let conf = split_char(lines[0], ',');
    if lines.len() == 0 || conf.len() < 2 {
        None
    } else {
        match (parse_bounded(conf[0], usize::MAX as nat), parse_bounded(conf[1], usize::MAX as nat)) {
            (Some(data_size), Some(_)) => match asm_lines(lines, 1, Seq::empty()) {
                None => None,
                Some(code) => Some((code, data_size as usize)),
            },
            _ => None,
        }
    }
}

/// The pieces of `s` between the separators `c`.
fn split_chars(s: &Vec<char>, c: char) -> (r: Vec<Vec<char>>)
    ensures
        r@.len() == split_char(s@, c).len(),
        forall|i: int| 0 <= i < r@.len() ==> #[trigger] r@[i]@ == split_char(s@, c)[i],
{
    let mut out: Vec<Vec<char>> = Vec::new();
    let mut cur: Vec<char> = Vec::new();
    let mut start: usize = 0;
    let mut i: usize = 0;
    let ghost outv: Seq<Seq<char>> = Seq::empty();
    while i < s.len()
        invariant
            start <= i <= s@.len(),
            forall|j: int| start <= j < i ==> s@[j] != c,
            cur@ == s@.subrange(start as int, i as int),
            out@.len() == outv.len(),
            forall|j: int| 0 <= j < out@.len() ==> #[trigger] out@[j]@ == outv[j],
            split_char(s@, c) == outv + split_from(s@, c, start as int),
        decreases s@.len() - i,
    {
        if s[i] == c {
            proof {
                lemma_char_skip(s@, c, start as int, i as int);
                assert(split_from(s@, c, start as int) == seq![cur@] + split_from(s@, c, i + 1));
                assert(outv + split_from(s@, c, start as int) =~= outv.push(cur@) + split_from(s@, c, i + 1));
                outv = outv.push(cur@);
            }
            out.push(cur);
            cur = Vec::new();
            start = i + 1;
            proof {
                assert(cur@ =~= s@.subrange(start as int, (i + 1) as int));
            }
        } else {
            cur.push(s[i]);
            proof {
                assert(cur@ =~= s@.subrange(start as int, i + 1));
            }
        }
        i = i + 1;
    }
    proof {
        lemma_char_skip(s@, c, start as int, i as int);
        lemma_char_index(s@, c, i as int);
        assert(split_from(s@, c, start as int) == seq![cur@]);
        outv = outv.push(cur@);
    }
    out.push(cur);
    out
}

/// No `c` is between `start` and `i`, so the search finds the same `c` from
/// either.
proof fn lemma_char_skip(s: Seq<char>, c: char, start: int, i: int)
    requires
        0 <= start <= i,
        forall|j: int| start <= j < i ==> s[j] != c,
    ensures
        char_index(s, c, start) == char_index(s, c, i),
    decreases i - start,
{
    if start < i {
        lemma_char_skip(s, c, start + 1, i);
    }
}

/// No character between `start` and `i` is (`ws`) or is not whitespace, so
/// the search finds the same place from either.
proof fn lemma_ws_skip(s: Seq<char>, ws: bool, start: int, i: int)
    requires
        0 <= start <= i,
        forall|j: int| start <= j < i ==> char_whitespace(s[j]) != ws,
    ensures
        ws_index(s, start, ws) == ws_index(s, i, ws),
    decreases i - start,
{
    if start < i {
        lemma_ws_skip(s, ws, start + 1, i);
    }
}

/// The words of `s`, as `str::split_whitespace` gives them.
fn split_words(s: &Vec<char>) -> (r: Vec<Vec<char>>)
    ensures
        r@.len() == words(s@).len(),
        forall|i: int| 0 <= i < r@.len() ==> #[trigger] r@[i]@ == words(s@)[i],
{
    let mut out: Vec<Vec<char>> = Vec::new();
    let ghost outv: Seq<Seq<char>> = Seq::empty();
    let mut i: usize = 0;
    while i < s.len()
        invariant
            i <= s@.len(),
            out@.len() == outv.len(),
            forall|j: int| 0 <= j < out@.len() ==> #[trigger] out@[j]@ == outv[j],
            words(s@) == outv + words_from(s@, i as int),
        decreases s@.len() - i,
    {
        let a0 = i;
        let mut a = i;
        while a < s.len() && is_whitespace(s[a])
            invariant
                a0 <= a <= s@.len(),
                forall|j: int| a0 <= j < a ==> char_whitespace(s@[j]) != false,
            decreases s@.len() - a,
        {
            a = a + 1;
        }
        proof {
            lemma_ws_skip(s@, false, a0 as int, a as int);
        }
        if a == s.len() {
            proof {
                lemma_ws_index(s@, a as int, false);
                assert(words_from(s@, a0 as int) == Seq::<Seq<char>>::empty());
                assert(outv + words_from(s@, a0 as int) =~= outv);
            }
            i = a;
            proof {
                assert(words_from(s@, i as int) == Seq::<Seq<char>>::empty());
            }
        } else {
            let mut w: Vec<char> = Vec::new();
            let mut b = a;
            while b < s.len() && !is_whitespace(s[b])
                invariant
                    a <= b <= s@.len(),
                    forall|j: int| a <= j < b ==> char_whitespace(s@[j]) != true,
                    w@ == s@.subrange(a as int, b as int),
                decreases s@.len() - b,
            {
                w.push(s[b]);
                proof {
                    assert(w@ =~= s@.subrange(a as int, b + 1));
                }
                b = b + 1;
            }
            proof {
                lemma_ws_skip(s@, true, a as int, b as int);
                lemma_ws_index(s@, a as int, false);
                lemma_ws_index(s@, b as int, true);
                assert(ws_index(s@, a as int, false) == Some(a as int));
                assert(words_from(s@, a0 as int) == seq![w@] + words_from(s@, b as int));
                assert(outv + words_from(s@, a0 as int) =~= outv.push(w@) + words_from(s@, b as int));
                outv = outv.push(w@);
            }
            out.push(w);
            i = b;
        }
    }
    proof {
        assert(words_from(s@, i as int) == Seq::<Seq<char>>::empty());
        assert(outv + words_from(s@, i as int) =~= outv);
    }
    out
}

/// A decimal number in `s` no larger than `max`.
fn parse_chars(s: &Vec<char>, max: u64) -> (r: Option<u64>)
    ensures
        match r {
            Some(v) => parse_bounded(s@, max as nat) == Some(v as nat),
            None => parse_bounded(s@, max as nat) is None,
        },
{
    let mut t = String::new();
    let mut i: usize = 0;
    while i < s.len()
        invariant
            i <= s@.len(),
            t@ == s@.subrange(0, i as int),
        decreases s@.len() - i,
    {
        string_push(&mut t, s[i]);
        proof {
            assert(t@ =~= s@.subrange(0, i + 1));
        }
        i = i + 1;
    }
    proof {
        assert(t@ =~= s@);
    }
    match parse_u64(t.as_str()) {
        Some(v) => if v <= max { Some(v) } else { None },
        None => None,
    }
}

/// The characters of `s` from `a` to `b`.
fn chars_between(s: &Vec<char>, a: usize, b: usize) -> (r: Vec<char>)
    requires
        a <= b <= s@.len(),
    ensures
        r@ == s@.subrange(a as int, b as int),
{
    let mut r: Vec<char> = Vec::new();
    let mut i = a;
    while i < b
        invariant
            a <= i <= b,
            b <= s@.len(),
            r@ == s@.subrange(a as int, i as int),
        decreases b - i,
    {
        r.push(s[i]);
        proof {
            assert(r@ =~= s@.subrange(a as int, i + 1));
        }
        i = i + 1;
    }
    r
}

/// The bytes of one instruction line.
fn assemble_line(line: &Vec<char>, code: &mut Vec<u8>) -> (ok: bool)
    ensures
        match asm_line(line@) {
            Some(b) => ok && final(code)@ == old(code)@ + b,
            None => !ok,
        },
{
    let segms = split_words(line);
    if segms.len() < 2 {
        return false;
    }
    let offset = match parse_chars(&segms[0], usize::MAX as u64) {
        Some(o) => o as usize,
        None => {
            return false;
        },
    };
    let mut name = String::new();
    let mut i: usize = 0;
    while i < segms[1].len()
        invariant
            segms@.len() >= 2,
            i <= segms@[1]@.len(),
            name@ == segms@[1]@.subrange(0, i as int),
        decreases segms@[1]@.len() - i,
    {
        string_push(&mut name, segms[1][i]);
        proof {
            assert(name@ =~= segms@[1]@.subrange(0, i + 1));
        }
        i = i + 1;
    }
    proof {
        assert(name@ =~= segms@[1]@);
    }
    let op = match get_instruction(name.as_str()) {
        Some(op) => op,
        None => {
            return false;
        },
    };
    let ghost before = code@;
    emit_byte(code, op.opcode());
    if op == Instructions::Jmp || op == Instructions::Jz {
        if segms.len() < 4 {
            return false;
        }
        let p = match parse_chars(&segms[3], usize::MAX as u64) {
            Some(p) => p as usize,
            None => {
                return false;
            },
        };
        if offset == usize::MAX || p < offset + 1 {
            return false;
        }
        emit_word(code, (p - (offset + 1)) as u32);
    } else if op == Instructions::Push {
        if segms.len() < 3 {
            return false;
        }
        let value = match parse_chars(&segms[2], u32::MAX as u64) {
            Some(v) => v as u32,
            None => {
                return false;
            },
        };
        emit_word(code, value);
    } else if op == Instructions::Fetch || op == Instructions::Store {
        if segms.len() < 3 {
            return false;
        }
        let s2 = &segms[2];
        if !(s2.len() >= 2 && s2[0] == '[' && s2[s2.len() - 1] == ']') {
            return false;
        }
        let inner = chars_between(s2, 1, s2.len() - 1);
        let value = match parse_chars(&inner, u32::MAX as u64) {
            Some(v) => v as u32,
            None => {
                return false;
            },
        };
        emit_word(code, value);
    }
    proof {
        assert(code@ =~= before + asm_line(line@)->0);
    }
    true
}

/// Assembles a program in the text form: a first line
/// `data_size,string_size`, then one instruction per line
/// `offset mnemonic [operand ...]`. Gives the code and the data size, or
/// `None` where the text is malformed.
pub fn assemble(text: &str) -> (r: Option<(Vec<u8>, usize)>)
    ensures
        match r {
            Some((code, data_size)) => spec_assemble(text@) == Some((code@, data_size)),
            None => spec_assemble(text@) is None,
        },
{
    let all = chars_of(text);
    let (a, b) = trim_bounds(&all);
    let trimmed = chars_between(&all, a, b);
    let lines = split_chars(&trimmed, '\n');
    let conf = split_chars(&lines[0], ',');
    if conf.len() < 2 {
        return None;
    }
    let data_size = match parse_chars(&conf[0], usize::MAX as u64) {
        Some(d) => d as usize,
        None => {
            return None;
        },
    };
    if parse_chars(&conf[1], usize::MAX as u64).is_none() {
        return None;
    }

    let ghost lv = split_char(trim(text@), '\n');
    proof {
        assert(trimmed@ == trim(text@));
        assert(lines@[0]@ == lv[0]);
    }
    let mut code: Vec<u8> = Vec::new();
    let mut i: usize = 1;
    while i < lines.len()
        invariant
            1 <= i <= lines@.len(),
            lines@.len() == lv.len(),
            forall|j: int| 0 <= j < lines@.len() ==> #[trigger] lines@[j]@ == lv[j],
            asm_lines(lv, 1, Seq::empty()) == asm_lines(lv, i as int, code@),
            spec_assemble(text@) == (match asm_lines(lv, 1, Seq::<u8>::empty()) {
                None => None,
                Some(c) => Some((c, data_size)),
            }),
        decreases lines@.len() - i,
    {
        if !assemble_line(&lines[i], &mut code) {
            return None;
        }
        i = i + 1;
    }
    Some((code, data_size))
}

} // verus!
