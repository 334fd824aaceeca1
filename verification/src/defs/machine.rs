//! The whole machine as one mathematical value, for stating what an
//! instruction, a step or a run does to it.

use vstd::prelude::*;
use crate::defs::console::Console;
use crate::defs::memory::Memory;
use crate::defs::memory::ADDRESS_SPACE;
use crate::defs::register::Register;
use crate::defs::register::REG_COUNT;

verus! {

/// Everything that an instruction can read or change.
#[verifier::ext_equal]
pub struct Machine {
    /// The ten slots of the register file.
    pub regs: Seq<u16>,
    /// The words of memory, by address.
    pub mem: Seq<u16>,
    /// The input bytes not read yet, oldest first.
    pub input: Seq<u8>,
    /// The character codes written so far, oldest first.
    pub output: Seq<u16>,
}

impl Machine {
    /// A machine has ten register slots and a word for every address.
    pub open spec fn wf(self) -> bool {
        &&& self.regs.len() == REG_COUNT
        &&& self.mem.len() == ADDRESS_SPACE
    }
}

/// The machine that a register file, a memory and a console make up.
pub open spec fn machine_of(reg: Register, memory: Memory, console: Console) -> Machine {
    Machine { regs: reg@, mem: memory@, input: console.input@, output: console.output@ }
}

} // verus!
