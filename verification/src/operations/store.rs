//! Stores: ST, STI and STR.
//!
//! Each writes one word of memory. The registers, the condition register
//! among them, are only read.

use vstd::prelude::*;
use crate::decode::dr;
use crate::decode::spec_dr;
use crate::defs::memory::Memory;
use crate::defs::register::Register;
use crate::operations::load::base_offset_address;
use crate::operations::load::compute_base_offset;
use crate::operations::load::compute_pc_relative;
use crate::operations::load::pc_relative_address;

verus! {

/// Memory after ST.
pub open spec fn st_result(regs: Seq<u16>, mem: Seq<u16>, instr: u16) -> Seq<u16> {
    mem.update(pc_relative_address(regs, instr) as int, regs[spec_dr(instr) as int])
}

/// Memory after STI.
pub open spec fn sti_result(regs: Seq<u16>, mem: Seq<u16>, instr: u16) -> Seq<u16> {
    mem.update(mem[pc_relative_address(regs, instr) as int] as int, regs[spec_dr(instr) as int])
}

/// Memory after STR.
pub open spec fn str_result(regs: Seq<u16>, mem: Seq<u16>, instr: u16) -> Seq<u16> {
    mem.update(base_offset_address(regs, instr) as int, regs[spec_dr(instr) as int])
}

/// ST: the word at the PC-relative address receives the source register.
///
/// ```text
/// 0011 sr pc_offset9
/// ```
pub fn op_st(reg: &Register, instr: u16, memory: &mut Memory)
    requires
        old(memory).wf(),
    ensures
        final(memory).wf(),
        final(memory)@ == st_result(reg@, old(memory)@, instr),
{
    let address: u16 = compute_pc_relative(reg, instr);
    memory.write(address, reg.get(dr(instr)));
}

/// STI: the word at the PC-relative address is itself an address, and the
/// word found there receives the source register.
///
/// ```text
/// 1011 sr pc_offset9
/// ```
pub fn op_sti(reg: &Register, instr: u16, memory: &mut Memory)
    requires
        old(memory).wf(),
    ensures
        final(memory).wf(),
        final(memory)@ == sti_result(reg@, old(memory)@, instr),
{
    let pointer: u16 = memory.read(compute_pc_relative(reg, instr));
    memory.write(pointer, reg.get(dr(instr)));
}

/// STR: the word at the base-plus-offset address receives the source
/// register.
///
/// ```text
/// 0111 sr base offset6
/// ```
pub fn op_str(reg: &Register, instr: u16, memory: &mut Memory)
    requires
        old(memory).wf(),
    ensures
        final(memory).wf(),
        final(memory)@ == str_result(reg@, old(memory)@, instr),
{
    let address: u16 = compute_base_offset(reg, instr);
    memory.write(address, reg.get(dr(instr)));
}

} // verus!
