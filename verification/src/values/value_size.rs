//! Operand sizes of the target machine.
use vstd::prelude::*;

verus! {

#[derive(Debug, PartialEq, Eq, Structural, Copy, Clone)]
pub enum ValueSize {
    Byte,
    Word,
    Dword,
    Qword,
}

impl ValueSize {
    /// The number of bytes of an operand of this size.
    pub open spec fn spec_size_in_bytes(self) -> u8 {
        match self {
            ValueSize::Byte => 1,
            ValueSize::Word => 2,
            ValueSize::Dword => 4,
            ValueSize::Qword => 8,
        }
    }

    /// The assembler's name of this size.
    pub open spec fn spec_name(self) -> Seq<char> {
        match self {
            ValueSize::Byte => "BYTE"@,
            ValueSize::Word => "WORD"@,
            ValueSize::Dword => "DWORD"@,
            ValueSize::Qword => "QWORD"@,
        }
    }

    pub fn get_size_in_bytes(&self) -> (r: u8)
        ensures
            r == self.spec_size_in_bytes(),
    {
        match self {
            ValueSize::Byte => 1,
            ValueSize::Word => 2,
            ValueSize::Dword => 4,
            ValueSize::Qword => 8,
        }
    }

    /// The assembler's name of this size, as it is printed.
    pub fn to_string(&self) -> (r: String)
        ensures
            r@ == self.spec_name(),
    {
        match self {
            ValueSize::Byte => String::from_str("BYTE"),
            ValueSize::Word => String::from_str("WORD"),
            ValueSize::Dword => String::from_str("DWORD"),
            ValueSize::Qword => String::from_str("QWORD"),
        }
    }
}

} // verus!
