//! The six trap routines, selected by the low eight bits of a trap
//! instruction.

use vstd::prelude::*;

verus! {

/// A service routine of the host.
#[allow(non_camel_case_types)]
#[derive(Debug, Clone, Copy, PartialEq, Eq)]
pub enum Traps {
    /// read one byte from the input, without echo
    TRAP_GETC,
    /// write one character
    TRAP_OUT,
    /// write a string held one character to a word
    TRAP_PUTS,
    /// prompt, read one byte from the input and echo it
    TRAP_IN,
    /// write a string held two characters to a word
    TRAP_PUTSP,
    /// stop the machine
    TRAP_HALT,
}

impl Traps {
    /// The routine that the vector `value` selects. The vectors 32 to 36
    /// select the first five routines in order; every other vector, 37 among
    /// them, selects `TRAP_HALT`.
    pub open spec fn spec_from_u16(value: u16) -> Traps {
        if value == 32 {
            Traps::TRAP_GETC
        } else if value == 33 {
            Traps::TRAP_OUT
        } else if value == 34 {
            Traps::TRAP_PUTS
        } else if value == 35 {
            Traps::TRAP_IN
        } else if value == 36 {
            Traps::TRAP_PUTSP
        } else {
            Traps::TRAP_HALT
        }
    }

    #[verifier::when_used_as_spec(spec_from_u16)]
    pub fn from_u16(value: u16) -> (trap: Traps)
        ensures
            trap == Traps::spec_from_u16(value),
    {
        match value {
            32 => Traps::TRAP_GETC,
            33 => Traps::TRAP_OUT,
            34 => Traps::TRAP_PUTS,
            35 => Traps::TRAP_IN,
            36 => Traps::TRAP_PUTSP,
            _ => Traps::TRAP_HALT,
        }
    }

    /// Whether the routine takes a byte from the input.
    pub open spec fn spec_reads_input(self) -> bool {
        self == Traps::TRAP_GETC || self == Traps::TRAP_IN
    }

    #[verifier::when_used_as_spec(spec_reads_input)]
    pub fn reads_input(self) -> (b: bool)
        ensures
            b == self.spec_reads_input(),
    {
        match self {
            Traps::TRAP_GETC => true,
            Traps::TRAP_IN => true,
            _ => false,
        }
    }
}

} // verus!
