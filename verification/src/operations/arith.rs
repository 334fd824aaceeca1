//! Arithmetic and logic: ADD, AND and NOT.
//!
//! Each writes a general-purpose register and sets the condition register
//! from the value written.

use vstd::prelude::*;
use crate::decode::dr;
use crate::decode::imm5;
use crate::decode::imm_flag;
use crate::decode::sr1;
use crate::decode::sr2;
use crate::decode::spec_dr;
use crate::decode::spec_imm5;
use crate::decode::spec_imm_flag;
use crate::decode::spec_sr1;
use crate::decode::spec_sr2;
use crate::defs::cond_flags::Cond_flags;
use crate::defs::cond_flags::is_single_flag;
use crate::defs::cond_flags::lemma_flags_exclusive;
use crate::defs::register::Register;
use crate::defs::register::REG_COUNT;
use crate::defs::register::SLOT_COND;
use crate::decode::lemma_field_bounds;
use crate::operations::helper::sign_ext;
use crate::operations::helper::spec_sign_ext;
use crate::operations::helper::update_flags;
use crate::operations::helper::wrapping_sum;
use crate::operations::helper::written_with_flags;

verus! {

/// The second operand of ADD and AND: the sign-extended immediate when the
/// mode bit is 1, the second source register when it is 0.
pub open spec fn second_operand(regs: Seq<u16>, instr: u16) -> u16 {
    if spec_imm_flag(instr) == 1 {
        spec_sign_ext(spec_imm5(instr), 5)
    } else {
        regs[spec_sr2(instr) as int]
    }
}

/// The register file after ADD.
pub open spec fn add_result(regs: Seq<u16>, instr: u16) -> Seq<u16> {
    written_with_flags(
        regs,
        spec_dr(instr),
        wrapping_sum(regs[spec_sr1(instr) as int], second_operand(regs, instr)),
    )
}

/// The register file after AND.
pub open spec fn and_result(regs: Seq<u16>, instr: u16) -> Seq<u16> {
    written_with_flags(
        regs,
        spec_dr(instr),
        regs[spec_sr1(instr) as int] & second_operand(regs, instr),
    )
}

/// The register file after NOT.
pub open spec fn not_result(regs: Seq<u16>, instr: u16) -> Seq<u16> {
    written_with_flags(regs, spec_dr(instr), !regs[spec_sr1(instr) as int])
}

/// Fetches the second operand of ADD and AND.
fn fetch_second_operand(reg: &Register, instr: u16) -> (operand: u16)
    ensures
        operand == second_operand(reg@, instr),
{
    if imm_flag(instr) == 1 {
        sign_ext(imm5(instr), 5)
    } else {
        reg.get(sr2(instr))
    }
}

/// ADD: the destination register receives the wrapping sum of the first
/// source register and the second operand.
///
/// ```text
/// 0001 dr sr1 0 00 sr2
/// 0001 dr sr1 1 imm5
/// ```
pub fn op_add(reg: &mut Register, instr: u16)
    ensures
        final(reg)@ == add_result(old(reg)@, instr),
{
    let dest: u16 = dr(instr);
    let operand: u16 = fetch_second_operand(reg, instr);
    let sum: u16 = reg.get(sr1(instr)).wrapping_add(operand);
    reg.set(dest, sum);
    update_flags(reg, dest);
}

/// AND: the destination register receives the bitwise and of the first
/// source register and the second operand.
///
/// ```text
/// 0101 dr sr1 0 00 sr2
/// 0101 dr sr1 1 imm5
/// ```
pub fn op_and(reg: &mut Register, instr: u16)
    ensures
        final(reg)@ == and_result(old(reg)@, instr),
{
    let dest: u16 = dr(instr);
    let operand: u16 = fetch_second_operand(reg, instr);
    let conjunction: u16 = reg.get(sr1(instr)) & operand;
    reg.set(dest, conjunction);
    update_flags(reg, dest);
}

/// NOT: the destination register receives the bitwise complement of the
/// source register. The low six bits of the instruction play no part.
///
/// ```text
/// 1001 dr sr 111111
/// ```
pub fn op_not(reg: &mut Register, instr: u16)
    ensures
        final(reg)@ == not_result(old(reg)@, instr),
{
    let dest: u16 = dr(instr);
    let complement: u16 = !reg.get(sr1(instr));
    reg.set(dest, complement);
    update_flags(reg, dest);
}

/// After ADD the condition register describes the sum: it holds the zero
/// flag exactly when the sum is zero, the negative flag exactly when bit 15
/// of the sum is set, the positive flag otherwise, and so exactly one flag.
pub proof fn lemma_add_sets_flags(regs: Seq<u16>, instr: u16)
    requires
        regs.len() == REG_COUNT,
    ensures
        ({
            let after = add_result(regs, instr);
            let sum = wrapping_sum(regs[spec_sr1(instr) as int], second_operand(regs, instr));
            let cond = after[SLOT_COND as int];
            &&& after[spec_dr(instr) as int] == sum
            &&& is_single_flag(cond)
            &&& cond == Cond_flags::FL_ZRO.spec_bits() <==> sum == 0
            &&& cond == Cond_flags::FL_NEG.spec_bits() <==> sum >> 15 == 1
            &&& cond == Cond_flags::FL_POS.spec_bits() <==> sum != 0 && sum >> 15 == 0
        }),
{
    lemma_field_bounds(instr);
    lemma_flags_exclusive(
        wrapping_sum(regs[spec_sr1(instr) as int], second_operand(regs, instr)),
    );
}

} // verus!
