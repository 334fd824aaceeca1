//! What the handlers share: sign extension of an instruction field, and the
//! update of the condition register after a register has been written.

use vstd::prelude::*;
use crate::defs::cond_flags::Cond_flags;
use crate::defs::cond_flags::flag_bits_for;
use crate::defs::register::Register;
use crate::defs::register::REG_COUNT;
use crate::defs::register::SLOT_COND;

verus! {

/// The sum of two words, modulo 65536: overflow wraps and is no error.
pub open spec fn wrapping_sum(a: u16, b: u16) -> u16 {
    ((a + b) % 0x1_0000) as u16
}

/// All ones at the bit positions from `bit_count` up to 15, zero below. For
/// a width of 16 there is no such position and the mask is zero.
pub open spec fn high_mask(bit_count: u16) -> u16 {
    if bit_count >= 16 {
        0
    } else {
        0xffffu16 << bit_count
    }
}

/// Whether bit `bit_count - 1` of `val`, the sign bit of a field of width
/// `bit_count`, is set.
pub open spec fn sign_bit_set(val: u16, bit_count: u16) -> bool {
    (val >> ((bit_count - 1) as u16)) & 1 == 1
}

/// The field `val` of width `bit_count` widened to 16 bits: when its sign bit
/// is set, every bit above the field is set too; otherwise the value is
/// unchanged.
pub open spec fn spec_sign_ext(val: u16, bit_count: i16) -> u16 {
    if sign_bit_set(val, bit_count as u16) {
        val | high_mask(bit_count as u16)
    } else {
        val
    }
}

/// Widens the two's-complement field `val` of width `bit_count` to 16 bits.
///
/// `bit_count` counts the bits of the field, sign bit included, so it lies
/// between 1 and 16.
#[verifier::when_used_as_spec(spec_sign_ext)]
pub fn sign_ext(val: u16, bit_count: i16) -> (extended: u16)
    requires
        1 <= bit_count <= 16,
    ensures
        extended == spec_sign_ext(val, bit_count),
{
    let width: u16 = bit_count as u16;
    if (val >> (width - 1)) & 1 == 1 {
        let mask: u16 = if width >= 16 {
            0
        } else {
            0xffffu16 << width
        };
        val | mask
    } else {
        val
    }
}

/// Extending twice is extending once; and a field of width 16 is a whole
/// word, which extension leaves as it is.
pub proof fn lemma_sign_ext_idempotent(val: u16, bit_count: i16)
    by (bit_vector)
    requires
        1 <= bit_count <= 16,
    ensures
        spec_sign_ext(spec_sign_ext(val, bit_count), bit_count) == spec_sign_ext(val, bit_count),
        spec_sign_ext(val, 16) == val,
{
}

/// When the sign bit of the field is set, every bit of the result above the
/// field is 1: each of the `16 - bit_count` positions from `bit_count` to 15.
pub proof fn lemma_sign_ext_fills_high_bits(val: u16, bit_count: i16, position: u16)
    by (bit_vector)
    requires
        1 <= bit_count <= 16,
        sign_bit_set(val, bit_count as u16),
        bit_count as u16 <= position,
        position < 16,
    ensures
        (spec_sign_ext(val, bit_count) >> position) & 1 == 1,
        spec_sign_ext(val, bit_count) & high_mask(bit_count as u16) == high_mask(bit_count as u16),
{
}

/// Extension never touches the field itself, and leaves a value whose sign
/// bit is clear as it is.
pub proof fn lemma_sign_ext_keeps_field(val: u16, bit_count: i16)
    by (bit_vector)
    requires
        1 <= bit_count <= 16,
    ensures
        spec_sign_ext(val, bit_count) & !high_mask(bit_count as u16) == val & !high_mask(
            bit_count as u16,
        ),
        !sign_bit_set(val, bit_count as u16) ==> spec_sign_ext(val, bit_count) == val,
{
}

/// Two to the power `bit_count`, for a width from 0 to 16.
pub open spec fn field_limit(bit_count: i16) -> int {
    (1u32 << (bit_count as u32)) as int
}

/// The number that the field `val` of width `bit_count` stands for in two's
/// complement: `val` itself below the half of the field's range, and `val`
/// less the whole range from the half on.
pub open spec fn field_value(val: u16, bit_count: i16) -> int {
    if val >= field_limit((bit_count - 1) as i16) {
        val - field_limit(bit_count)
    } else {
        val as int
    }
}

/// The bit-level facts behind `lemma_sign_ext_keeps_value`: the sign bit of
/// a field that fits its width is set exactly from the half of the range on,
/// and the mask then adds what separates the range from 65536.
proof fn lemma_sign_ext_bits(val: u16, bit_count: i16)
    by (bit_vector)
    requires
        1 <= bit_count <= 16,
        (val as u32) < (1u32 << (bit_count as u32)),
    ensures
        sign_bit_set(val, bit_count as u16) <==> (val as u32) >= (1u32 << ((bit_count - 1) as i16
            as u32)),
        sign_bit_set(val, bit_count as u16) ==> spec_sign_ext(val, bit_count) as u32 + (1u32 << (
            bit_count as u32)) == val as u32 + 0x1_0000u32,
        (1u32 << (bit_count as u32)) <= 0x1_0000u32,
        (1u32 << (bit_count as u32)) == 2 * (1u32 << ((bit_count - 1) as i16 as u32)),
{
}

/// Sign extension keeps the number: a field that fits its width extends to
/// the 16-bit word that stands for the same number in two's complement, so
/// adding the extended field with wrap-around adds that number modulo 65536.
pub proof fn lemma_sign_ext_keeps_value(val: u16, bit_count: i16, base: u16)
    requires
        1 <= bit_count <= 16,
        val < field_limit(bit_count),
    ensures
        -0x8000 <= field_value(val, bit_count) < 0x8000,
        spec_sign_ext(val, bit_count) as int == (field_value(val, bit_count) + 0x1_0000)
            % 0x1_0000,
        wrapping_sum(base, spec_sign_ext(val, bit_count)) as int == (base + field_value(
            val,
            bit_count,
        )) % 0x1_0000,
{
    lemma_sign_ext_bits(val, bit_count);
}

/// The register file after `value` has been written to slot `dr` and the
/// condition register set from it.
pub open spec fn written_with_flags(regs: Seq<u16>, dr: u16, value: u16) -> Seq<u16> {
    regs.update(dr as int, value).update(SLOT_COND as int, flag_bits_for(value))
}

/// The register file after the condition register has been set from
/// `regs[dr]`.
pub open spec fn flags_updated(regs: Seq<u16>, dr: u16) -> Seq<u16> {
    regs.update(SLOT_COND as int, flag_bits_for(regs[dr as int]))
}

/// Sets the condition register from the value in slot `dr`: zero when the
/// value is 0, negative when its bit 15 is set, positive otherwise. No other
/// slot changes.
pub fn update_flags(reg: &mut Register, dr: u16)
    requires
        dr < REG_COUNT,
    ensures
        final(reg)@ == flags_updated(old(reg)@, dr),
{
    let value: u16 = reg.get(dr);
    reg.set(SLOT_COND, Cond_flags::of(value).bits());
}

} // verus!
