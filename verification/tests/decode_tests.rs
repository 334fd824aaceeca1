//! Instruction fields, opcodes, sign extension and condition flags.

use lc3_vm::decode::dr;
use lc3_vm::decode::imm5;
use lc3_vm::decode::imm_flag;
use lc3_vm::decode::long_flag;
use lc3_vm::decode::offset6;
use lc3_vm::decode::opcode;
use lc3_vm::decode::pc_offset11;
use lc3_vm::decode::pc_offset9;
use lc3_vm::decode::sr1;
use lc3_vm::decode::sr2;
use lc3_vm::decode::trap_vector;
use lc3_vm::defs::cond_flags::Cond_flags;
use lc3_vm::defs::opcode::Opcode;
use lc3_vm::defs::register::Reg;
use lc3_vm::defs::register::Register;
use lc3_vm::operations::helper::sign_ext;
use lc3_vm::operations::helper::update_flags;

#[test]
fn every_word_is_recovered_from_its_opcode_and_fields() {
    for word in 0..=0xFFFFu16 {
        let op = opcode(word).code();
        assert_eq!(
            (op << 12) | (dr(word) << 9) | (sr1(word) << 6) | (imm_flag(word) << 5) | imm5(word),
            word
        );
        assert_eq!((op << 12) | (dr(word) << 9) | (sr1(word) << 6) | offset6(word), word);
        assert_eq!((op << 12) | (dr(word) << 9) | pc_offset9(word), word);
        assert_eq!((op << 12) | (long_flag(word) << 11) | pc_offset11(word), word);
        assert_eq!((word & 0xFF00) | trap_vector(word), word);
        assert_eq!(sr2(word), imm5(word) & 0b111);
    }
}

#[test]
fn fields_of_one_word() {
    let word: u16 = 0b0001_011_101_1_10110;
    assert_eq!(opcode(word), Opcode::OP_ADD);
    assert_eq!(dr(word), 3);
    assert_eq!(sr1(word), 5);
    assert_eq!(imm_flag(word), 1);
    assert_eq!(imm5(word), 0b10110);
    assert_eq!(sr2(word), 0b110);
    assert_eq!(offset6(word), 0b110110);
    assert_eq!(pc_offset9(word), 0b101110110);
    assert_eq!(pc_offset11(word), 0b11101110110);
    assert_eq!(long_flag(word), 0);
    assert_eq!(trap_vector(word), 0b01110110);
}

#[test]
fn opcodes_are_numbered_from_the_top_four_bits() {
    let expected = [
        Opcode::OP_BR,
        Opcode::OP_ADD,
        Opcode::OP_LD,
        Opcode::OP_ST,
        Opcode::OP_JSR,
        Opcode::OP_AND,
        Opcode::OP_LDR,
        Opcode::OP_STR,
        Opcode::OP_RTI,
        Opcode::OP_NOT,
        Opcode::OP_LDI,
        Opcode::OP_STI,
        Opcode::OP_JMP,
        Opcode::OP_RES,
        Opcode::OP_LEA,
        Opcode::OP_TRAP,
    ];
    for number in 0..16u16 {
        let op = Opcode::from_i16(number as i16);
        assert_eq!(op, expected[number as usize]);
        assert_eq!(op.code(), number);
        assert_eq!(opcode(number << 12), op);
        assert_eq!(opcode((number << 12) | 0x0FFF), op);
    }
}

#[test]
fn sign_ext_exact_values() {
    assert_eq!(sign_ext(0b11111, 5), 0xFFFF);
    assert_eq!(sign_ext(0b10000, 5), 0xFFF0);
    assert_eq!(sign_ext(0b01111, 5), 0x000F);
    assert_eq!(sign_ext(0b00000, 5), 0x0000);
    assert_eq!(sign_ext(0b100000, 6), 0xFFE0);
    assert_eq!(sign_ext(0b011111, 6), 0x001F);
    assert_eq!(sign_ext(0x1FF, 9), 0xFFFF);
    assert_eq!(sign_ext(0x100, 9), 0xFF00);
    assert_eq!(sign_ext(0x0FF, 9), 0x00FF);
    assert_eq!(sign_ext(0x7FF, 11), 0xFFFF);
    assert_eq!(sign_ext(0x400, 11), 0xFC00);
    assert_eq!(sign_ext(0x3FF, 11), 0x03FF);
}

#[test]
fn sign_ext_at_the_narrowest_and_widest_width() {
    assert_eq!(sign_ext(1, 1), 0xFFFF);
    assert_eq!(sign_ext(0, 1), 0x0000);
    assert_eq!(sign_ext(0x4000, 15), 0xC000);
    for value in [0x0000u16, 0x0001, 0x7FFF, 0x8000, 0x8001, 0xFFFF, 0x1234, 0xABCD] {
        assert_eq!(sign_ext(value, 16), value);
    }
}

#[test]
fn sign_ext_is_idempotent() {
    for width in 1..=16i16 {
        for value in 0..=0xFFFFu16 {
            let once = sign_ext(value, width);
            assert_eq!(sign_ext(once, width), once);
        }
    }
}

#[test]
fn sign_ext_fills_the_bits_above_a_set_sign_bit() {
    for width in 1..=16i16 {
        for value in 0..=0xFFFFu16 {
            let extended = sign_ext(value, width);
            if (value >> (width - 1)) & 1 == 1 {
                for position in (width as u16)..16 {
                    assert_eq!((extended >> position) & 1, 1);
                }
            } else {
                assert_eq!(extended, value);
            }
            if width < 16 {
                let field: u16 = (1u16 << width) - 1;
                assert_eq!(extended & field, value & field);
            }
        }
    }
}

#[test]
fn every_value_selects_exactly_one_flag() {
    for value in 0..=0xFFFFu16 {
        let flag = Cond_flags::of(value);
        let expected = if value == 0 {
            Cond_flags::FL_ZRO
        } else if value >> 15 == 1 {
            Cond_flags::FL_NEG
        } else {
            Cond_flags::FL_POS
        };
        assert_eq!(flag, expected);
        assert_eq!(flag.bits().count_ones(), 1);
    }
}

#[test]
fn flag_bit_patterns() {
    assert_eq!(Cond_flags::FL_POS.bits(), 0b001);
    assert_eq!(Cond_flags::FL_ZRO.bits(), 0b010);
    assert_eq!(Cond_flags::FL_NEG.bits(), 0b100);
    assert_eq!(Cond_flags::of(0x7FFF), Cond_flags::FL_POS);
    assert_eq!(Cond_flags::of(0x8000), Cond_flags::FL_NEG);
}

#[test]
fn update_flags_reads_the_named_slot_and_writes_only_cond() {
    let mut register = Register { reg: [0, 5, 0x8000, 0, 0, 0, 0, 7, 0x3000, 0] };
    update_flags(&mut register, 1);
    assert_eq!(register.reg, [0, 5, 0x8000, 0, 0, 0, 0, 7, 0x3000, 0b001]);
    update_flags(&mut register, 2);
    assert_eq!(register.reg, [0, 5, 0x8000, 0, 0, 0, 0, 7, 0x3000, 0b100]);
    update_flags(&mut register, 0);
    assert_eq!(register.reg, [0, 5, 0x8000, 0, 0, 0, 0, 7, 0x3000, 0b010]);
    update_flags(&mut register, 8);
    assert_eq!(register[Reg::R_COND], 0b001);
}

#[test]
fn register_names_and_slots() {
    let names = [
        Reg::R_R0,
        Reg::R_R1,
        Reg::R_R2,
        Reg::R_R3,
        Reg::R_R4,
        Reg::R_R5,
        Reg::R_R6,
        Reg::R_R7,
        Reg::R_PC,
        Reg::R_COND,
    ];
    let mut register = Register::default();
    assert_eq!(register.reg, [0; 10]);
    for (slot, name) in names.iter().enumerate() {
        assert_eq!(name.slot() as usize, slot);
        register[*name] = 100 + slot as u16;
    }
    for slot in 0..10u16 {
        assert_eq!(register[slot], 100 + slot);
        assert_eq!(register.get(slot), 100 + slot);
    }
    register.set(4, 1);
    assert_eq!(register[Reg::R_R4], 1);
}
