//! The register file: eight general-purpose registers, the program counter
//! and the condition register, held as ten 16-bit slots.

use vstd::prelude::*;
use std::ops::Index;
use std::ops::IndexMut;

verus! {

/// Number of slots in the register file.
pub const REG_COUNT: usize = 10;

/// Slot of the register that receives trap input and names trap output.
pub const SLOT_R0: u16 = 0;

/// Slot of the link register, written by subroutine calls.
pub const SLOT_R7: u16 = 7;

/// Slot of the program counter.
pub const SLOT_PC: u16 = 8;

/// Slot of the condition register.
pub const SLOT_COND: u16 = 9;

/// Address at which execution starts.
pub const PC_START: u16 = 0x3000;

/// Names of the ten slots.
#[allow(non_camel_case_types)]
#[derive(Debug, PartialEq, Eq, Hash, Copy, Clone)]
pub enum Reg {
    R_R0,
    R_R1,
    R_R2,
    R_R3,
    R_R4,
    R_R5,
    R_R6,
    R_R7,
    R_PC,
    R_COND,
}

impl Reg {
    /// The slot that this name stands for.
    pub open spec fn spec_slot(self) -> u16 {
        match self {
            Reg::R_R0 => 0,
            Reg::R_R1 => 1,
            Reg::R_R2 => 2,
            Reg::R_R3 => 3,
            Reg::R_R4 => 4,
            Reg::R_R5 => 5,
            Reg::R_R6 => 6,
            Reg::R_R7 => 7,
            Reg::R_PC => 8,
            Reg::R_COND => 9,
        }
    }

    #[verifier::when_used_as_spec(spec_slot)]
    pub fn slot(self) -> (s: u16)
        ensures
            s == self.spec_slot(),
            s < REG_COUNT,
    {
        match self {
            Reg::R_R0 => 0,
            Reg::R_R1 => 1,
            Reg::R_R2 => 2,
            Reg::R_R3 => 3,
            Reg::R_R4 => 4,
            Reg::R_R5 => 5,
            Reg::R_R6 => 6,
            Reg::R_R7 => 7,
            Reg::R_PC => 8,
            Reg::R_COND => 9,
        }
    }
}

/// The register file. Its view is the sequence of its ten slots.
pub struct Register {
    pub reg: [u16; 10],
}

impl View for Register {
    type V = Seq<u16>;

    open spec fn view(&self) -> Seq<u16> {
        self.reg@
    }
}

impl Default for Register {
    /// A register file with every slot zero.
    fn default() -> (r: Register)
        ensures
            r@ == Seq::new(REG_COUNT as nat, |i: int| 0u16),
    {
        Register { reg: [0u16; 10] }
    }
}

impl Register {
    /// Reads slot `slot`.
    pub fn get(&self, slot: u16) -> (value: u16)
        requires
            slot < REG_COUNT,
        ensures
            value == self@[slot as int],
    {
        self.reg[slot as usize]
    }

    /// Writes `value` to slot `slot` and leaves the other slots alone.
    pub fn set(&mut self, slot: u16, value: u16)
        requires
            slot < REG_COUNT,
        ensures
            final(self)@ == old(self)@.update(slot as int, value),
    {
        self.reg[slot as usize] = value;
    }
}

impl vstd::std_specs::core::IndexSpecImpl<u16> for Register {
    open spec fn index_req(&self, index: &u16) -> bool {
        *index < REG_COUNT
    }
}

impl Index<u16> for Register {
    type Output = u16;

    fn index(&self, index: u16) -> (value: &u16)
        ensures
            *value == self@[index as int],
    {
        &self.reg[index as usize]
    }
}

impl IndexMut<u16> for Register {
    fn index_mut(&mut self, index: u16) -> (value: &mut u16)
        requires
            index < REG_COUNT,
        ensures
            *value == old(self)@[index as int],
            final(self)@ == old(self)@.update(index as int, *final(value)),
    {
        &mut self.reg[index as usize]
    }
}

impl vstd::std_specs::core::IndexSpecImpl<Reg> for Register {
    open spec fn index_req(&self, index: &Reg) -> bool {
        true
    }
}

impl Index<Reg> for Register {
    type Output = u16;

    fn index(&self, index: Reg) -> (value: &u16)
        ensures
            *value == self@[index.spec_slot() as int],
    {
        &self.reg[index.slot() as usize]
    }
}

impl IndexMut<Reg> for Register {
    fn index_mut(&mut self, index: Reg) -> (value: &mut u16)
        ensures
            *value == old(self)@[index.spec_slot() as int],
            final(self)@ == old(self)@.update(index.spec_slot() as int, *final(value)),
    {
        &mut self.reg[index.slot() as usize]
    }
}

} // verus!
