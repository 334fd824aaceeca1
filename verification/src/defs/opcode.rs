//! The sixteen opcodes, selected by the top four bits of an instruction.

use vstd::prelude::*;

verus! {

/// The class of an instruction. `OP_RTI` and `OP_RES` are reserved: the
/// machine has no behaviour for them.
#[allow(non_camel_case_types)]
#[derive(Debug, Clone, Copy, PartialEq, Eq)]
pub enum Opcode {
    /// branch
    OP_BR,
    /// add
    OP_ADD,
    /// load
    OP_LD,
    /// store
    OP_ST,
    /// jump to subroutine
    OP_JSR,
    /// bitwise and
    OP_AND,
    /// load, base plus offset
    OP_LDR,
    /// store, base plus offset
    OP_STR,
    /// reserved
    OP_RTI,
    /// bitwise not
    OP_NOT,
    /// load indirect
    OP_LDI,
    /// store indirect
    OP_STI,
    /// jump
    OP_JMP,
    /// reserved
    OP_RES,
    /// load effective address
    OP_LEA,
    /// trap
    OP_TRAP,
}

impl Opcode {
    /// The four-bit number that selects this opcode.
    pub open spec fn spec_code(self) -> u16 {
        match self {
            Opcode::OP_BR => 0,
            Opcode::OP_ADD => 1,
            Opcode::OP_LD => 2,
            Opcode::OP_ST => 3,
            Opcode::OP_JSR => 4,
            Opcode::OP_AND => 5,
            Opcode::OP_LDR => 6,
            Opcode::OP_STR => 7,
            Opcode::OP_RTI => 8,
            Opcode::OP_NOT => 9,
            Opcode::OP_LDI => 10,
            Opcode::OP_STI => 11,
            Opcode::OP_JMP => 12,
            Opcode::OP_RES => 13,
            Opcode::OP_LEA => 14,
            Opcode::OP_TRAP => 15,
        }
    }

    /// The opcode that the number `code` selects, for `code` from 0 to 15.
    pub open spec fn spec_from_code(code: int) -> Opcode {
        if code == 0 {
            Opcode::OP_BR
        } else if code == 1 {
            Opcode::OP_ADD
        } else if code == 2 {
            Opcode::OP_LD
        } else if code == 3 {
            Opcode::OP_ST
        } else if code == 4 {
            Opcode::OP_JSR
        } else if code == 5 {
            Opcode::OP_AND
        } else if code == 6 {
            Opcode::OP_LDR
        } else if code == 7 {
            Opcode::OP_STR
        } else if code == 8 {
            Opcode::OP_RTI
        } else if code == 9 {
            Opcode::OP_NOT
        } else if code == 10 {
            Opcode::OP_LDI
        } else if code == 11 {
            Opcode::OP_STI
        } else if code == 12 {
            Opcode::OP_JMP
        } else if code == 13 {
            Opcode::OP_RES
        } else if code == 14 {
            Opcode::OP_LEA
        } else {
            Opcode::OP_TRAP
        }
    }

    /// Whether the machine has no behaviour for this opcode.
    pub open spec fn is_reserved(self) -> bool {
        self == Opcode::OP_RTI || self == Opcode::OP_RES
    }

    /// Whether the instruction writes a general-purpose register and, with
    /// it, the condition register.
    pub open spec fn sets_flags(self) -> bool {
        ||| self == Opcode::OP_ADD
        ||| self == Opcode::OP_AND
        ||| self == Opcode::OP_NOT
        ||| self == Opcode::OP_LD
        ||| self == Opcode::OP_LDI
        ||| self == Opcode::OP_LDR
        ||| self == Opcode::OP_LEA
    }

    /// The opcode selected by `value`, which is the top four bits of an
    /// instruction and so lies between 0 and 15.
    pub fn from_i16(value: i16) -> (op: Opcode)
        requires
            0 <= value <= 15,
        ensures
            op == Opcode::spec_from_code(value as int),
            op.spec_code() == value,
    {
        match value {
            0 => Opcode::OP_BR,
            1 => Opcode::OP_ADD,
            2 => Opcode::OP_LD,
            3 => Opcode::OP_ST,
            4 => Opcode::OP_JSR,
            5 => Opcode::OP_AND,
            6 => Opcode::OP_LDR,
            7 => Opcode::OP_STR,
            8 => Opcode::OP_RTI,
            9 => Opcode::OP_NOT,
            10 => Opcode::OP_LDI,
            11 => Opcode::OP_STI,
            12 => Opcode::OP_JMP,
            13 => Opcode::OP_RES,
            14 => Opcode::OP_LEA,
            _ => Opcode::OP_TRAP,
        }
    }

    /// The four-bit number that selects this opcode.
    #[verifier::when_used_as_spec(spec_code)]
    pub fn code(self) -> (c: u16)
        ensures
            c == self.spec_code(),
            c <= 15,
    {
        match self {
            Opcode::OP_BR => 0,
            Opcode::OP_ADD => 1,
            Opcode::OP_LD => 2,
            Opcode::OP_ST => 3,
            Opcode::OP_JSR => 4,
            Opcode::OP_AND => 5,
            Opcode::OP_LDR => 6,
            Opcode::OP_STR => 7,
            Opcode::OP_RTI => 8,
            Opcode::OP_NOT => 9,
            Opcode::OP_LDI => 10,
            Opcode::OP_STI => 11,
            Opcode::OP_JMP => 12,
            Opcode::OP_RES => 13,
            Opcode::OP_LEA => 14,
            Opcode::OP_TRAP => 15,
        }
    }
}

/// Numbers and opcodes correspond one to one: the opcode of a number has that
/// number, and the number of an opcode selects that opcode.
pub proof fn lemma_opcode_code_bijection(op: Opcode, code: int)
    ensures
        Opcode::spec_from_code(op.spec_code() as int) == op,
        0 <= op.spec_code() <= 15,
        0 <= code <= 15 ==> Opcode::spec_from_code(code).spec_code() == code,
{
}

} // verus!
