use umber_lang::runtime::{emit_byte, emit_word, emit_word_at, get_instruction, hole, vm, Instructions};

#[test]
fn mnemonics_name_their_instructions() {
    assert_eq!(get_instruction("push"), Some(Instructions::Push));
    assert_eq!(get_instruction("halt"), Some(Instructions::Halt));
    assert_eq!(get_instruction("prti"), Some(Instructions::Prti));
    assert_eq!(get_instruction("nop"), None);
    assert_eq!(Instructions::Halt.opcode(), 22);
    assert_eq!(Instructions::Fetch.opcode(), 0);
}

#[test]
fn words_are_written_lowest_byte_first() {
    let mut c: Vec<u8> = Vec::new();
    emit_byte(&mut c, 7);
    emit_word(&mut c, 0x0403_0201);
    assert_eq!(c, vec![7, 1, 2, 3, 4]);
    emit_word_at(&mut c, 0x0a0b_0c0d, 1);
    assert_eq!(c, vec![7, 0x0d, 0x0c, 0x0b, 0x0a]);
    let end = hole(&mut c);
    assert_eq!(end, 9);
    assert_eq!(c, vec![7, 0x0d, 0x0c, 0x0b, 0x0a, 0, 0, 0, 0]);
}

fn push(c: &mut Vec<u8>, w: u32) {
    emit_byte(c, Instructions::Push.opcode());
    emit_word(c, w);
}

#[test]
fn the_machine_adds_and_compares() {
    let mut c: Vec<u8> = Vec::new();
    push(&mut c, 5);
    push(&mut c, 7);
    emit_byte(&mut c, Instructions::Add.opcode());
    push(&mut c, 12);
    emit_byte(&mut c, Instructions::Eq.opcode());
    emit_byte(&mut c, Instructions::Halt.opcode());
    assert_eq!(vm(&c, 2, vec![]), vec![0, 0, 1]);
}

#[test]
fn the_machine_divides_and_takes_remainders() {
    let mut c: Vec<u8> = Vec::new();
    push(&mut c, 17);
    push(&mut c, 5);
    emit_byte(&mut c, Instructions::Mod.opcode());
    push(&mut c, 10);
    emit_byte(&mut c, Instructions::Mul.opcode());
    push(&mut c, 4);
    emit_byte(&mut c, Instructions::Div.opcode());
    push(&mut c, 1);
    emit_byte(&mut c, Instructions::Sub.opcode());
    emit_byte(&mut c, Instructions::Halt.opcode());
    assert_eq!(vm(&c, 0, vec![]), vec![4]);
}

use umber_lang::runtime::{assemble, run_machine};

#[test]
fn a_program_text_is_assembled_and_run() {
    let (code, data_size) = assemble("  2,0\n0 push 5\n5 push 7\n10 add\n11 halt\n\n").unwrap();
    assert_eq!(code, vec![2, 5, 0, 0, 0, 2, 7, 0, 0, 0, 3, 22]);
    assert_eq!(data_size, 2);
    assert_eq!(run_machine(&code, data_size), Some(vec![0, 0, 12]));
}

#[test]
fn jumps_are_relative_and_cells_are_bracketed() {
    let (code, _) = assemble("1,0\n0 jmp (5) 6\n5 fetch [3]\n10 store [4]\n15 prti").unwrap();
    assert_eq!(code, vec![17, 5, 0, 0, 0, 0, 3, 0, 0, 0, 1, 4, 0, 0, 0, 21]);
}

#[test]
fn malformed_programs_are_refused() {
    assert_eq!(assemble("1"), None);
    assert_eq!(assemble("a,0"), None);
    assert_eq!(assemble("1,0\n0 nop"), None);
    assert_eq!(assemble("1,0\n0 push"), None);
    assert_eq!(assemble("1,0\n0 push 4294967296"), None);
    assert_eq!(assemble("1,0\n5 jmp (0) 2"), None);
    assert_eq!(assemble("1,0\n0 fetch 3"), None);
}

#[test]
fn the_machine_stops_on_errors() {
    assert_eq!(run_machine(&vec![2, 1, 0, 0, 0], 0), None);
    let mut c: Vec<u8> = Vec::new();
    push(&mut c, 1);
    push(&mut c, 0);
    emit_byte(&mut c, Instructions::Div.opcode());
    emit_byte(&mut c, Instructions::Halt.opcode());
    assert_eq!(run_machine(&c, 0), None);
    assert_eq!(run_machine(&vec![3, 22], 1), None);
    assert_eq!(run_machine(&vec![4, 22], 2), Some(vec![0]));
}
