//! Loads: LD, LDI, LDR and LEA.
//!
//! Each writes a general-purpose register and sets the condition register
//! from the value written. The program counter that an offset is added to is
//! the one that already points past the instruction.

use vstd::prelude::*;
use crate::decode::dr;
use crate::decode::offset6;
use crate::decode::pc_offset9;
use crate::decode::sr1;
use crate::decode::spec_dr;
use crate::decode::spec_offset6;
use crate::decode::spec_pc_offset9;
use crate::decode::spec_sr1;
use crate::defs::memory::Memory;
use crate::defs::register::Register;
use crate::defs::register::SLOT_PC;
use crate::operations::helper::sign_ext;
use crate::operations::helper::spec_sign_ext;
use crate::operations::helper::update_flags;
use crate::operations::helper::wrapping_sum;
use crate::operations::helper::written_with_flags;

verus! {

/// The address that a PC-relative instruction names: the program counter
/// plus the sign-extended nine-bit offset, wrapping.
pub open spec fn pc_relative_address(regs: Seq<u16>, instr: u16) -> u16 {
    wrapping_sum(regs[SLOT_PC as int], spec_sign_ext(spec_pc_offset9(instr), 9))
}

/// The address that a base-plus-offset instruction names: the base register
/// plus the sign-extended six-bit offset, wrapping.
pub open spec fn base_offset_address(regs: Seq<u16>, instr: u16) -> u16 {
    wrapping_sum(regs[spec_sr1(instr) as int], spec_sign_ext(spec_offset6(instr), 6))
}

/// The register file after LD.
pub open spec fn ld_result(regs: Seq<u16>, mem: Seq<u16>, instr: u16) -> Seq<u16> {
    written_with_flags(regs, spec_dr(instr), mem[pc_relative_address(regs, instr) as int])
}

/// The register file after LDI.
pub open spec fn ldi_result(regs: Seq<u16>, mem: Seq<u16>, instr: u16) -> Seq<u16> {
    written_with_flags(
        regs,
        spec_dr(instr),
        mem[mem[pc_relative_address(regs, instr) as int] as int],
    )
}

/// The register file after LDR.
pub open spec fn ldr_result(regs: Seq<u16>, mem: Seq<u16>, instr: u16) -> Seq<u16> {
    written_with_flags(regs, spec_dr(instr), mem[base_offset_address(regs, instr) as int])
}

/// The register file after LEA.
pub open spec fn lea_result(regs: Seq<u16>, instr: u16) -> Seq<u16> {
    written_with_flags(regs, spec_dr(instr), pc_relative_address(regs, instr))
}

/// Computes the address of a PC-relative instruction.
pub fn compute_pc_relative(reg: &Register, instr: u16) -> (address: u16)
    ensures
        address == pc_relative_address(reg@, instr),
{
    let offset: u16 = sign_ext(pc_offset9(instr), 9);
    reg.get(SLOT_PC).wrapping_add(offset)
}

/// Computes the address of a base-plus-offset instruction.
pub fn compute_base_offset(reg: &Register, instr: u16) -> (address: u16)
    ensures
        address == base_offset_address(reg@, instr),
{
    let offset: u16 = sign_ext(offset6(instr), 6);
    reg.get(sr1(instr)).wrapping_add(offset)
}

/// LD: the destination register receives the word at the PC-relative
/// address.
///
/// ```text
/// 0010 dr pc_offset9
/// ```
pub fn op_ld(reg: &mut Register, instr: u16, memory: &Memory)
    requires
        memory.wf(),
    ensures
        final(reg)@ == ld_result(old(reg)@, memory@, instr),
{
    let dest: u16 = dr(instr);
    let word: u16 = memory.read(compute_pc_relative(reg, instr));
    reg.set(dest, word);
    update_flags(reg, dest);
}

/// LDI: the word at the PC-relative address is itself an address, and the
/// destination register receives the word found there.
///
/// ```text
/// 1010 dr pc_offset9
/// ```
pub fn op_ldi(reg: &mut Register, instr: u16, memory: &Memory)
    requires
        memory.wf(),
    ensures
        final(reg)@ == ldi_result(old(reg)@, memory@, instr),
{
    let dest: u16 = dr(instr);
    let pointer: u16 = memory.read(compute_pc_relative(reg, instr));
    let word: u16 = memory.read(pointer);
    reg.set(dest, word);
    update_flags(reg, dest);
}

/// LDR: the destination register receives the word at the base-plus-offset
/// address.
///
/// ```text
/// 0110 dr base offset6
/// ```
pub fn op_ldr(reg: &mut Register, instr: u16, memory: &Memory)
    requires
        memory.wf(),
    ensures
        final(reg)@ == ldr_result(old(reg)@, memory@, instr),
{
    let dest: u16 = dr(instr);
    let word: u16 = memory.read(compute_base_offset(reg, instr));
    reg.set(dest, word);
    update_flags(reg, dest);
}

/// LEA: the destination register receives the PC-relative address itself.
/// Memory is not read.
///
/// ```text
/// 1110 dr pc_offset9
/// ```
pub fn op_lea(reg: &mut Register, instr: u16)
    ensures
        final(reg)@ == lea_result(old(reg)@, instr),
{
    let dest: u16 = dr(instr);
    let address: u16 = compute_pc_relative(reg, instr);
    reg.set(dest, address);
    update_flags(reg, dest);
}

} // verus!
