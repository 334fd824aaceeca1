//! The three condition flags and the rule that picks one for a value.

use vstd::prelude::*;

verus! {

/// The sign of the value most recently written to a general-purpose register.
///
/// Each flag owns one bit of the condition register: positive is bit 0, zero
/// is bit 1 and negative is bit 2, so a branch can test any subset of them
/// with a three-bit mask.
#[allow(non_camel_case_types)]
#[derive(Debug, Clone, Copy, PartialEq, Eq)]
pub enum Cond_flags {
    FL_POS,
    FL_ZRO,
    FL_NEG,
}

impl Cond_flags {
    /// The bit pattern that the condition register holds for this flag.
    pub open spec fn spec_bits(self) -> u16 {
        match self {
            Cond_flags::FL_POS => 1,
            Cond_flags::FL_ZRO => 2,
            Cond_flags::FL_NEG => 4,
        }
    }

    /// The flag that describes `value` read as a 16-bit two's-complement
    /// number: zero, else negative when bit 15 is set, else positive.
    pub open spec fn spec_of(value: u16) -> Cond_flags {
        if value == 0 {
            Cond_flags::FL_ZRO
        } else if value >= 0x8000 {
            Cond_flags::FL_NEG
        } else {
            Cond_flags::FL_POS
        }
    }

    #[verifier::when_used_as_spec(spec_bits)]
    pub fn bits(self) -> (b: u16)
        ensures
            b == self.spec_bits(),
    {
        match self {
            Cond_flags::FL_POS => 1,
            Cond_flags::FL_ZRO => 2,
            Cond_flags::FL_NEG => 4,
        }
    }

    #[verifier::when_used_as_spec(spec_of)]
    pub fn of(value: u16) -> (flag: Cond_flags)
        ensures
            flag == Cond_flags::spec_of(value),
    {
        if value == 0 {
            Cond_flags::FL_ZRO
        } else if (value >> 15) == 1 {
            assert(value >> 15 == 1 <==> value >= 0x8000) by (bit_vector);
            Cond_flags::FL_NEG
        } else {
            assert(value >> 15 == 1 <==> value >= 0x8000) by (bit_vector);
            Cond_flags::FL_POS
        }
    }
}

/// The bit pattern of the flag that describes `value`.
pub open spec fn flag_bits_for(value: u16) -> u16 {
    Cond_flags::spec_of(value).spec_bits()
}

/// Whether `cond` is the bit pattern of exactly one flag.
pub open spec fn is_single_flag(cond: u16) -> bool {
    cond == 1 || cond == 2 || cond == 4
}

/// A value selects exactly one flag: the three cases (zero, bit 15 set,
/// neither) exclude one another, and the pattern stored for the value has one
/// bit set and tells the cases apart.
pub proof fn lemma_flags_exclusive(value: u16)
    ensures
        is_single_flag(flag_bits_for(value)),
        flag_bits_for(value) == Cond_flags::FL_ZRO.spec_bits() <==> value == 0,
        flag_bits_for(value) == Cond_flags::FL_NEG.spec_bits() <==> value >> 15 == 1,
        flag_bits_for(value) == Cond_flags::FL_POS.spec_bits() <==> value != 0 && value >> 15 == 0,
        Cond_flags::FL_POS.spec_bits() & Cond_flags::FL_ZRO.spec_bits() == 0,
        Cond_flags::FL_POS.spec_bits() & Cond_flags::FL_NEG.spec_bits() == 0,
        Cond_flags::FL_ZRO.spec_bits() & Cond_flags::FL_NEG.spec_bits() == 0,
{
    assert(value >> 15 == 1 <==> value >= 0x8000) by (bit_vector);
    assert(value >> 15 == 0 <==> value < 0x8000) by (bit_vector);
    assert(1u16 & 2u16 == 0 && 1u16 & 4u16 == 0 && 2u16 & 4u16 == 0) by (bit_vector);
}

} // verus!
