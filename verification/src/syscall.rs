//! The object formats the compiler can target, and the system call numbers
//! each of them uses.
use vstd::prelude::*;

verus! {

/// How arguments are passed to functions on a target.
#[derive(Debug, PartialEq, Eq, Structural, Copy, Clone)]
pub enum CallingConvention {
    Unix,
    Win,
}

/// An object format to emit code for.
#[derive(Debug, PartialEq, Eq, Structural, Copy, Clone)]
pub enum TargetObjectType {
    X86_64,
    Win64,
    Macho64,
}

impl TargetObjectType {
    /// The object format name that the assembler is given.
    pub open spec fn spec_object_format(self) -> Seq<char> {
        match self {
            TargetObjectType::X86_64 => "elf64"@,
            TargetObjectType::Win64 => "win64"@,
            TargetObjectType::Macho64 => "macho64"@,
        }
    }

    /// The file extension of an object file.
    pub open spec fn spec_object_file_extension(self) -> Seq<char> {
        match self {
            TargetObjectType::X86_64 => "o"@,
            TargetObjectType::Win64 => "obj"@,
            TargetObjectType::Macho64 => "o"@,
        }
    }

    /// The calling convention of the target.
    pub open spec fn spec_calling_convention(self) -> CallingConvention {
        match self {
            TargetObjectType::X86_64 => CallingConvention::Unix,
            TargetObjectType::Win64 => CallingConvention::Win,
            TargetObjectType::Macho64 => CallingConvention::Unix,
        }
    }

    pub fn object_format(&self) -> (r: &'static str)
        ensures
            r@ == self.spec_object_format(),
    {
        match self {
            TargetObjectType::X86_64 => "elf64",
            TargetObjectType::Win64 => "win64",
            TargetObjectType::Macho64 => "macho64",
        }
    }

    pub fn object_file_extension(&self) -> (r: &'static str)
        ensures
            r@ == self.spec_object_file_extension(),
    {
        match self {
            TargetObjectType::X86_64 => "o",
            TargetObjectType::Win64 => "obj",
            TargetObjectType::Macho64 => "o",
        }
    }

    pub fn calling_convention(&self) -> (r: CallingConvention)
        ensures
            r == self.spec_calling_convention(),
    {
        match self {
            TargetObjectType::X86_64 => CallingConvention::Unix,
            TargetObjectType::Win64 => CallingConvention::Win,
            TargetObjectType::Macho64 => CallingConvention::Unix,
        }
    }

    /// Whether addresses are emitted relative to the instruction pointer:
    /// only for Mach-O.
    pub fn should_use_rel(&self) -> (r: bool)
        ensures
            r == (*self == TargetObjectType::Macho64),
    {
        match self {
            TargetObjectType::X86_64 => false,
            TargetObjectType::Win64 => false,
            TargetObjectType::Macho64 => true,
        }
    }
}

/// The system calls the generated code makes.
#[derive(Debug, PartialEq, Eq, Structural, Copy, Clone)]
pub enum SyscallTable {
    Exit,
}

impl SyscallTable {
    /// The number of the system call on a target.
    pub open spec fn spec_code(self, arch: TargetObjectType) -> u32 {
        match self {
            SyscallTable::Exit => match arch {
                TargetObjectType::X86_64 => 60,
                TargetObjectType::Win64 => 1,
                TargetObjectType::Macho64 => 0x2000001,
            },
        }
    }

    pub fn code(&self, arch: TargetObjectType) -> (r: u32)
        ensures
            r == self.spec_code(arch),
    {
        match self {
            SyscallTable::Exit => match arch {
                TargetObjectType::X86_64 => 60,
                TargetObjectType::Win64 => 1,
                TargetObjectType::Macho64 => 0x2000001,
            },
        }
    }
}

} // verus!
