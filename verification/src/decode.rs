//! The instruction encoding: which bits of a 16-bit word hold which field.
//!
//! ```text
//!  15    12 11  9 8   6  5  4      0
//! +--------+-----+-----+---+--------+
//! | opcode | dr  | sr1 | i |  imm5  |   add, and, not
//! | opcode | dr  | sr1 |  offset6   |   ldr, str, jmp, jsrr
//! | opcode | dr  |    pc_offset9    |   br, ld, ldi, lea, st, sti
//! | opcode |l|      pc_offset11     |   jsr
//! | opcode | spare |   trap_vector  |   trap
//! +--------+-----+-----+---+--------+
//! ```
//!
//! Every field is extracted by a shift and a mask. The `spec_` functions say
//! which bits a field is; the executable functions compute them.

use vstd::prelude::*;
use crate::defs::opcode::Opcode;

verus! {

/// Bits 15 to 12: the number of the opcode.
pub open spec fn spec_opcode_bits(instr: u16) -> u16 {
    instr >> 12
}

/// The opcode of `instr`.
pub open spec fn spec_opcode(instr: u16) -> Opcode {
    Opcode::spec_from_code(spec_opcode_bits(instr) as int)
}

/// Bits 11 to 9: the destination register of a load or an operation, the
/// source register of a store, the condition mask of a branch.
pub open spec fn spec_dr(instr: u16) -> u16 {
    (instr >> 9) & 0b111
}

/// Bits 8 to 6: the first source register of an operation, the base register
/// of a jump or of a base-plus-offset access.
pub open spec fn spec_sr1(instr: u16) -> u16 {
    (instr >> 6) & 0b111
}

/// Bits 2 to 0: the second source register of an operation in register mode.
pub open spec fn spec_sr2(instr: u16) -> u16 {
    instr & 0b111
}

/// Bit 5: 1 when the second operand is the immediate field, 0 when it is a
/// register.
pub open spec fn spec_imm_flag(instr: u16) -> u16 {
    (instr >> 5) & 0b1
}

/// Bits 4 to 0: the immediate operand, before sign extension.
pub open spec fn spec_imm5(instr: u16) -> u16 {
    instr & 0b1_1111
}

/// Bits 5 to 0: the offset from a base register, before sign extension.
pub open spec fn spec_offset6(instr: u16) -> u16 {
    instr & 0b11_1111
}

/// Bits 8 to 0: the offset from the program counter, before sign extension.
pub open spec fn spec_pc_offset9(instr: u16) -> u16 {
    instr & 0b1_1111_1111
}

/// Bits 10 to 0: the long offset of a subroutine call, before sign
/// extension.
pub open spec fn spec_pc_offset11(instr: u16) -> u16 {
    instr & 0b111_1111_1111
}

/// Bit 11: 1 when a subroutine call takes its target from the long offset, 0
/// when it takes it from a base register.
pub open spec fn spec_long_flag(instr: u16) -> u16 {
    (instr >> 11) & 0b1
}

/// Bits 7 to 0: the vector of a trap.
pub open spec fn spec_trap_vector(instr: u16) -> u16 {
    instr & 0xFF
}

/// Bits 11 to 8: the bits of a trap instruction that no routine reads.
pub open spec fn spec_trap_spare(instr: u16) -> u16 {
    (instr >> 8) & 0b1111
}

/// The word with the given opcode number, register fields, mode bit and
/// immediate.
pub open spec fn encode_operate(opcode: u16, dr: u16, sr1: u16, imm_flag: u16, imm5: u16) -> u16 {
    (opcode << 12) | (dr << 9) | (sr1 << 6) | (imm_flag << 5) | imm5
}

/// The word with the given opcode number, register fields and six-bit offset.
pub open spec fn encode_base_offset(opcode: u16, dr: u16, base: u16, offset6: u16) -> u16 {
    (opcode << 12) | (dr << 9) | (base << 6) | offset6
}

/// The word with the given opcode number, register field and nine-bit offset.
pub open spec fn encode_pc_relative(opcode: u16, dr: u16, pc_offset9: u16) -> u16 {
    (opcode << 12) | (dr << 9) | pc_offset9
}

/// The word with the given opcode number, mode bit and eleven-bit offset.
pub open spec fn encode_long(opcode: u16, long_flag: u16, pc_offset11: u16) -> u16 {
    (opcode << 12) | (long_flag << 11) | pc_offset11
}

/// The word with the given opcode number, spare bits and trap vector.
pub open spec fn encode_trap(opcode: u16, spare: u16, trap_vector: u16) -> u16 {
    (opcode << 12) | (spare << 8) | trap_vector
}

/// Every field fits the number of bits it occupies.
pub proof fn lemma_field_bounds(instr: u16)
    by (bit_vector)
    ensures
        spec_opcode_bits(instr) < 16,
        spec_dr(instr) < 8,
        spec_sr1(instr) < 8,
        spec_sr2(instr) < 8,
        spec_imm_flag(instr) < 2,
        spec_imm5(instr) < 32,
        spec_offset6(instr) < 64,
        spec_pc_offset9(instr) < 512,
        spec_pc_offset11(instr) < 2048,
        spec_long_flag(instr) < 2,
        spec_trap_vector(instr) < 256,
        spec_trap_spare(instr) < 16,
{
}

/// The fields of each layout cover all sixteen bits of a word and do not
/// overlap.
proof fn lemma_fields_cover_word(instr: u16)
    by (bit_vector)
    ensures
        encode_operate(
            spec_opcode_bits(instr),
            spec_dr(instr),
            spec_sr1(instr),
            spec_imm_flag(instr),
            spec_imm5(instr),
        ) == instr,
        encode_base_offset(
            spec_opcode_bits(instr),
            spec_dr(instr),
            spec_sr1(instr),
            spec_offset6(instr),
        ) == instr,
        encode_pc_relative(spec_opcode_bits(instr), spec_dr(instr), spec_pc_offset9(instr))
            == instr,
        encode_long(spec_opcode_bits(instr), spec_long_flag(instr), spec_pc_offset11(instr))
            == instr,
        encode_trap(spec_opcode_bits(instr), spec_trap_spare(instr), spec_trap_vector(instr))
            == instr,
        spec_sr2(instr) == spec_imm5(instr) & 0b111,
{
}

/// Decoding any word into its opcode and the fields of any one layout, and
/// encoding the opcode's number and those fields again, gives the word back.
pub proof fn lemma_decode_encode(instr: u16)
    ensures
        spec_opcode(instr).spec_code() == spec_opcode_bits(instr),
        encode_operate(
            spec_opcode(instr).spec_code(),
            spec_dr(instr),
            spec_sr1(instr),
            spec_imm_flag(instr),
            spec_imm5(instr),
        ) == instr,
        encode_base_offset(
            spec_opcode(instr).spec_code(),
            spec_dr(instr),
            spec_sr1(instr),
            spec_offset6(instr),
        ) == instr,
        encode_pc_relative(
            spec_opcode(instr).spec_code(),
            spec_dr(instr),
            spec_pc_offset9(instr),
        ) == instr,
        encode_long(
            spec_opcode(instr).spec_code(),
            spec_long_flag(instr),
            spec_pc_offset11(instr),
        ) == instr,
        encode_trap(
            spec_opcode(instr).spec_code(),
            spec_trap_spare(instr),
            spec_trap_vector(instr),
        ) == instr,
        spec_sr2(instr) == spec_imm5(instr) & 0b111,
{
    lemma_field_bounds(instr);
    lemma_fields_cover_word(instr);
}

/// Encoding fields that fit their widths and decoding the word gives the
/// fields back.
pub proof fn lemma_encode_decode(opcode: u16, dr: u16, sr1: u16, flag: u16, low: u16)
    by (bit_vector)
    requires
        opcode < 16,
        dr < 8,
        sr1 < 8,
        flag < 2,
    ensures
        low < 32 ==> {
            let w = encode_operate(opcode, dr, sr1, flag, low);
            &&& spec_opcode_bits(w) == opcode
            &&& spec_dr(w) == dr
            &&& spec_sr1(w) == sr1
            &&& spec_imm_flag(w) == flag
            &&& spec_imm5(w) == low
        },
        low < 64 ==> {
            let w = encode_base_offset(opcode, dr, sr1, low);
            &&& spec_opcode_bits(w) == opcode
            &&& spec_dr(w) == dr
            &&& spec_sr1(w) == sr1
            &&& spec_offset6(w) == low
        },
        low < 512 ==> {
            let w = encode_pc_relative(opcode, dr, low);
            &&& spec_opcode_bits(w) == opcode
            &&& spec_dr(w) == dr
            &&& spec_pc_offset9(w) == low
        },
        low < 2048 ==> {
            let w = encode_long(opcode, flag, low);
            &&& spec_opcode_bits(w) == opcode
            &&& spec_long_flag(w) == flag
            &&& spec_pc_offset11(w) == low
        },
        low < 256 ==> {
            let w = encode_trap(opcode, dr, low);
            &&& spec_opcode_bits(w) == opcode
            &&& spec_trap_spare(w) == dr
            &&& spec_trap_vector(w) == low
        },
{
}

#[verifier::when_used_as_spec(spec_opcode)]
pub fn opcode(instr: u16) -> (op: Opcode)
    ensures
        op == spec_opcode(instr),
{
    proof {
        lemma_field_bounds(instr);
    }
    Opcode::from_i16((instr >> 12) as i16)
}

#[verifier::when_used_as_spec(spec_dr)]
pub fn dr(instr: u16) -> (field: u16)
    ensures
        field == spec_dr(instr),
        field < 8,
{
    proof {
        lemma_field_bounds(instr);
    }
    (instr >> 9) & 0b111
}

#[verifier::when_used_as_spec(spec_sr1)]
pub fn sr1(instr: u16) -> (field: u16)
    ensures
        field == spec_sr1(instr),
        field < 8,
{
    proof {
        lemma_field_bounds(instr);
    }
    (instr >> 6) & 0b111
}

#[verifier::when_used_as_spec(spec_sr2)]
pub fn sr2(instr: u16) -> (field: u16)
    ensures
        field == spec_sr2(instr),
        field < 8,
{
    proof {
        lemma_field_bounds(instr);
    }
    instr & 0b111
}

#[verifier::when_used_as_spec(spec_imm_flag)]
pub fn imm_flag(instr: u16) -> (field: u16)
    ensures
        field == spec_imm_flag(instr),
        field < 2,
{
    proof {
        lemma_field_bounds(instr);
    }
    (instr >> 5) & 0b1
}

#[verifier::when_used_as_spec(spec_imm5)]
pub fn imm5(instr: u16) -> (field: u16)
    ensures
        field == spec_imm5(instr),
        field < 32,
{
    proof {
        lemma_field_bounds(instr);
    }
    instr & 0b1_1111
}

#[verifier::when_used_as_spec(spec_offset6)]
pub fn offset6(instr: u16) -> (field: u16)
    ensures
        field == spec_offset6(instr),
        field < 64,
{
    proof {
        lemma_field_bounds(instr);
    }
    instr & 0b11_1111
}

#[verifier::when_used_as_spec(spec_pc_offset9)]
pub fn pc_offset9(instr: u16) -> (field: u16)
    ensures
        field == spec_pc_offset9(instr),
        field < 512,
{
    proof {
        lemma_field_bounds(instr);
    }
    instr & 0b1_1111_1111
}

#[verifier::when_used_as_spec(spec_pc_offset11)]
pub fn pc_offset11(instr: u16) -> (field: u16)
    ensures
        field == spec_pc_offset11(instr),
        field < 2048,
{
    proof {
        lemma_field_bounds(instr);
    }
    instr & 0b111_1111_1111
}

#[verifier::when_used_as_spec(spec_long_flag)]
pub fn long_flag(instr: u16) -> (field: u16)
    ensures
        field == spec_long_flag(instr),
        field < 2,
{
    proof {
        lemma_field_bounds(instr);
    }
    (instr >> 11) & 0b1
}

#[verifier::when_used_as_spec(spec_trap_vector)]
pub fn trap_vector(instr: u16) -> (field: u16)
    ensures
        field == spec_trap_vector(instr),
        field < 256,
{
    proof {
        lemma_field_bounds(instr);
    }
    instr & 0xFF
}

} // verus!
