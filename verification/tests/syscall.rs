use umber_lang::syscall::{CallingConvention, SyscallTable, TargetObjectType};

#[test]
fn targets_name_their_formats() {
    assert_eq!(TargetObjectType::X86_64.object_format(), "elf64");
    assert_eq!(TargetObjectType::Win64.object_format(), "win64");
    assert_eq!(TargetObjectType::Macho64.object_format(), "macho64");
    assert_eq!(TargetObjectType::Win64.object_file_extension(), "obj");
    assert_eq!(TargetObjectType::Macho64.object_file_extension(), "o");
    assert_eq!(TargetObjectType::Win64.calling_convention(), CallingConvention::Win);
    assert_eq!(TargetObjectType::Macho64.calling_convention(), CallingConvention::Unix);
    assert!(TargetObjectType::Macho64.should_use_rel());
    assert!(!TargetObjectType::X86_64.should_use_rel());
}

#[test]
fn exit_has_a_number_on_each_target() {
    assert_eq!(SyscallTable::Exit.code(TargetObjectType::X86_64), 60);
    assert_eq!(SyscallTable::Exit.code(TargetObjectType::Win64), 1);
    assert_eq!(SyscallTable::Exit.code(TargetObjectType::Macho64), 0x2000001);
}
