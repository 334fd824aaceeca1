//! Control transfer: BR, JMP and JSR.
//!
//! Each writes the program counter; JSR writes the link register as well.
//! None of them writes the condition register.

use vstd::prelude::*;
use crate::decode::dr;
use crate::decode::long_flag;
use crate::decode::pc_offset11;
use crate::decode::sr1;
use crate::decode::spec_dr;
use crate::decode::spec_long_flag;
use crate::decode::spec_pc_offset11;
use crate::decode::spec_sr1;
use crate::decode::lemma_field_bounds;
use crate::defs::register::Register;
use crate::defs::register::REG_COUNT;
use crate::defs::register::SLOT_COND;
use crate::defs::register::SLOT_PC;
use crate::defs::register::SLOT_R7;
use crate::operations::helper::sign_ext;
use crate::operations::helper::spec_sign_ext;
use crate::operations::helper::wrapping_sum;
use crate::operations::load::compute_pc_relative;
use crate::operations::load::pc_relative_address;

verus! {

/// Whether BR branches: whether a flag that the mask in bits 11 to 9 tests
/// is set in the condition register.
pub open spec fn branch_taken(regs: Seq<u16>, instr: u16) -> bool {
    spec_dr(instr) & regs[SLOT_COND as int] != 0
}

/// The register file after BR.
pub open spec fn br_result(regs: Seq<u16>, instr: u16) -> Seq<u16> {
    if branch_taken(regs, instr) {
        regs.update(SLOT_PC as int, pc_relative_address(regs, instr))
    } else {
        regs
    }
}

/// The register file after JMP.
pub open spec fn jmp_result(regs: Seq<u16>, instr: u16) -> Seq<u16> {
    regs.update(SLOT_PC as int, regs[spec_sr1(instr) as int])
}

/// The register file after the first half of JSR: the link register holds
/// the program counter.
pub open spec fn linked(regs: Seq<u16>) -> Seq<u16> {
    regs.update(SLOT_R7 as int, regs[SLOT_PC as int])
}

/// The address that JSR jumps to. It is read after the link register has
/// been written, so a call through R7 finds the saved program counter there.
pub open spec fn jsr_target(regs: Seq<u16>, instr: u16) -> u16 {
    if spec_long_flag(instr) == 0 {
        linked(regs)[spec_sr1(instr) as int]
    } else {
        wrapping_sum(regs[SLOT_PC as int], spec_sign_ext(spec_pc_offset11(instr), 11))
    }
}

/// The register file after JSR.
pub open spec fn jsr_result(regs: Seq<u16>, instr: u16) -> Seq<u16> {
    linked(regs).update(SLOT_PC as int, jsr_target(regs, instr))
}

/// BR: when the condition register has a flag that the mask tests, the
/// program counter moves by the sign-extended offset; otherwise nothing
/// changes.
///
/// ```text
/// 0000 n z p pc_offset9
/// ```
pub fn op_br(reg: &mut Register, instr: u16)
    ensures
        final(reg)@ == br_result(old(reg)@, instr),
{
    let mask: u16 = dr(instr);
    if mask & reg.get(SLOT_COND) != 0 {
        let target: u16 = compute_pc_relative(reg, instr);
        reg.set(SLOT_PC, target);
    }
}

/// JMP: the program counter receives the base register. With R7 as the base
/// this returns from a subroutine.
///
/// ```text
/// 1100 000 base 000000
/// ```
pub fn op_jmp(reg: &mut Register, instr: u16)
    ensures
        final(reg)@ == jmp_result(old(reg)@, instr),
{
    let target: u16 = reg.get(sr1(instr));
    reg.set(SLOT_PC, target);
}

/// JSR: R7 receives the program counter; then the program counter receives
/// the base register when bit 11 is 0, or moves by the sign-extended long
/// offset when bit 11 is 1.
///
/// ```text
/// 0100 1 pc_offset11
/// 0100 0 00 base 000000
/// ```
pub fn op_jsr(reg: &mut Register, instr: u16)
    ensures
        final(reg)@ == jsr_result(old(reg)@, instr),
{
    let return_address: u16 = reg.get(SLOT_PC);
    reg.set(SLOT_R7, return_address);
    if long_flag(instr) == 0 {
        let target: u16 = reg.get(sr1(instr));
        reg.set(SLOT_PC, target);
    } else {
        let offset: u16 = sign_ext(pc_offset11(instr), 11);
        reg.set(SLOT_PC, return_address.wrapping_add(offset));
    }
}

/// BR with an empty mask is a no-op whatever the condition register holds;
/// with a mask that tests a flag of the condition register it moves the
/// program counter by the offset and changes nothing else.
pub proof fn lemma_br_follows_mask(regs: Seq<u16>, instr: u16)
    requires
        regs.len() == REG_COUNT,
    ensures
        spec_dr(instr) == 0 ==> br_result(regs, instr) == regs,
        spec_dr(instr) & regs[SLOT_COND as int] != 0 ==> br_result(regs, instr) == regs.update(
            SLOT_PC as int,
            pc_relative_address(regs, instr),
        ),
        spec_dr(instr) & regs[SLOT_COND as int] == 0 ==> br_result(regs, instr) == regs,
        br_result(regs, instr)[SLOT_COND as int] == regs[SLOT_COND as int],
{
    let cond = regs[SLOT_COND as int];
    assert(0u16 & cond == 0) by (bit_vector);
}

/// JSR always leaves the program counter it found in R7, and bit 11 alone
/// decides where the target comes from: from the long offset when it is 1,
/// whatever the base field holds, and from the base register when it is 0,
/// whatever the offset bits hold.
pub proof fn lemma_jsr_links_and_selects(regs: Seq<u16>, instr: u16, other: u16)
    requires
        regs.len() == REG_COUNT,
    ensures
        jsr_result(regs, instr)[SLOT_R7 as int] == regs[SLOT_PC as int],
        jsr_result(regs, instr)[SLOT_COND as int] == regs[SLOT_COND as int],
        spec_long_flag(instr) == 1 ==> jsr_result(regs, instr)[SLOT_PC as int] == wrapping_sum(
            regs[SLOT_PC as int],
            spec_sign_ext(spec_pc_offset11(instr), 11),
        ),
        spec_long_flag(instr) == 0 ==> jsr_result(regs, instr)[SLOT_PC as int] == (if spec_sr1(
            instr,
        ) == SLOT_R7 {
            regs[SLOT_PC as int]
        } else {
            regs[spec_sr1(instr) as int]
        }),
        spec_long_flag(instr) == 1 && spec_long_flag(other) == 1 && spec_pc_offset11(instr)
            == spec_pc_offset11(other) ==> jsr_result(regs, instr) == jsr_result(regs, other),
        spec_long_flag(instr) == 0 && spec_long_flag(other) == 0 && spec_sr1(instr) == spec_sr1(
            other,
        ) ==> jsr_result(regs, instr) == jsr_result(regs, other),
{
    lemma_field_bounds(instr);
    lemma_field_bounds(other);
}

} // verus!
