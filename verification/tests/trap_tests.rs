//! The trap routines against a scripted console.

use lc3_vm::defs::console::Console;
use lc3_vm::defs::error::VmError;
use lc3_vm::defs::memory::Memory;
use lc3_vm::defs::register::Reg;
use lc3_vm::defs::register::Register;
use lc3_vm::defs::traps::Traps;
use lc3_vm::operations::traps::op_trap;
use lc3_vm::operations::traps::trap_getc;
use lc3_vm::operations::traps::trap_halt;
use lc3_vm::operations::traps::trap_in;
use lc3_vm::operations::traps::trap_out;
use lc3_vm::operations::traps::trap_puts;
use lc3_vm::operations::traps::trap_putsp;

const PROMPT: &str = "Enter a character: ";

fn codes(text: &str) -> Vec<u16> {
    text.bytes().map(|b| b as u16).collect()
}

fn console_with(input: &[u8]) -> Console {
    let mut console = Console::new();
    for byte in input {
        console.feed(*byte);
    }
    console
}

fn store_text(memory: &mut Memory, start: u16, words: &[u16]) {
    let mut address = start;
    for word in words {
        memory[address] = *word;
        address = address.wrapping_add(1);
    }
}

#[test]
fn test_trap_halt() {
    let mut running = true;
    trap_halt(&mut running);
    assert_eq!(running, false);
}

#[test]
fn operations_test_trap_puts() {
    let mut register = Register::default();
    let memory = Memory::new(100);
    let mut console = Console::new();
    trap_puts(&mut register, &memory, &mut console);
    assert_eq!(console.output, vec![0]);
}

#[test]
fn traps_test_trap_puts() {
    let mut register = Register::default();
    let memory = Memory::new(100);
    let mut console = Console::new();
    trap_puts(&mut register, &memory, &mut console);
    assert_eq!(console.output, vec![0]);
    assert!(console.input.is_empty());
}

#[test]
fn puts_writes_low_bytes_up_to_and_including_the_zero() {
    let mut register = Register::default();
    let mut memory = Memory::new(65536);
    store_text(&mut memory, 0x4000, &[0x0048, 0xAB69, 0x0021, 0x0000, 0x0041]);
    register[Reg::R_R0] = 0x4000;
    let mut console = Console::new();
    trap_puts(&register, &memory, &mut console);
    assert_eq!(console.output, vec![0x48, 0x69, 0x21, 0x00]);
    assert_eq!(register[Reg::R_R0], 0x4000);
}

#[test]
fn puts_stops_at_a_word_whose_low_byte_alone_is_zero() {
    let mut register = Register::default();
    let mut memory = Memory::new(65536);
    store_text(&mut memory, 0x4000, &[0x0041, 0x4200, 0x0043]);
    register[Reg::R_R0] = 0x4000;
    let mut console = Console::new();
    trap_puts(&register, &memory, &mut console);
    assert_eq!(console.output, vec![0x41, 0x00]);
}

#[test]
fn puts_wraps_at_the_end_of_memory() {
    let mut register = Register::default();
    let mut memory = Memory::new(65536);
    memory[0xFFFF] = 0x41;
    memory[0x0000] = 0x42;
    memory[0x0001] = 0x00;
    register[Reg::R_R0] = 0xFFFF;
    let mut console = Console::new();
    trap_puts(&register, &memory, &mut console);
    assert_eq!(console.output, vec![0x41, 0x42, 0x00]);
}

#[test]
fn puts_gives_up_after_one_pass_over_a_memory_without_a_zero() {
    let mut register = Register::default();
    let mut memory = Memory::new(65536);
    for address in 0..=0xFFFFu16 {
        memory[address] = 0x0130;
    }
    register[Reg::R_R0] = 0x1234;
    let mut console = Console::new();
    trap_puts(&register, &memory, &mut console);
    assert_eq!(console.output.len(), 65536);
    assert!(console.output.iter().all(|code| *code == 0x30));
}

#[test]
fn puts_appends_to_what_was_written_before() {
    let mut register = Register::default();
    let mut memory = Memory::new(65536);
    store_text(&mut memory, 0x10, &[0x62, 0x00]);
    register[Reg::R_R0] = 0x10;
    let mut console = Console::new();
    console.write_char(0x61);
    trap_puts(&register, &memory, &mut console);
    assert_eq!(console.output, vec![0x61, 0x62, 0x00]);
}

#[test]
fn putsp_writes_two_characters_to_a_word() {
    let mut register = Register::default();
    let mut memory = Memory::new(65536);
    // "Hello" packed: "eH", "ll", "o"
    store_text(&mut memory, 0x4000, &[0x6548, 0x6C6C, 0x006F, 0x0000]);
    register[Reg::R_R0] = 0x4000;
    let mut console = Console::new();
    trap_putsp(&register, &memory, &mut console);
    assert_eq!(console.output, codes("Hello"));
}

#[test]
fn putsp_emits_no_high_byte_character_when_the_high_byte_is_zero() {
    let mut register = Register::default();
    let mut memory = Memory::new(65536);
    store_text(&mut memory, 0x4000, &[0x0041, 0x0042, 0x4443, 0x0000]);
    register[Reg::R_R0] = 0x4000;
    let mut console = Console::new();
    trap_putsp(&register, &memory, &mut console);
    assert_eq!(console.output, vec![0x41, 0x42, 0x43, 0x44]);
}

#[test]
fn putsp_stops_at_the_first_zero_low_byte_and_writes_nothing_of_that_word() {
    let mut register = Register::default();
    let mut memory = Memory::new(65536);
    store_text(&mut memory, 0x4000, &[0x4241, 0x5A00, 0x4443]);
    register[Reg::R_R0] = 0x4000;
    let mut console = Console::new();
    trap_putsp(&register, &memory, &mut console);
    assert_eq!(console.output, vec![0x41, 0x42]);
}

#[test]
fn putsp_of_an_empty_string_writes_nothing() {
    let register = Register::default();
    let memory = Memory::new(65536);
    let mut console = Console::new();
    trap_putsp(&register, &memory, &mut console);
    assert!(console.output.is_empty());
}

#[test]
fn putsp_wraps_at_the_end_of_memory() {
    let mut register = Register::default();
    let mut memory = Memory::new(65536);
    memory[0xFFFF] = 0x4241;
    memory[0x0000] = 0x0043;
    register[Reg::R_R0] = 0xFFFF;
    let mut console = Console::new();
    trap_putsp(&register, &memory, &mut console);
    assert_eq!(console.output, vec![0x41, 0x42, 0x43]);
}

#[test]
fn putsp_gives_up_after_one_pass_over_a_memory_without_a_zero() {
    let mut register = Register::default();
    let mut memory = Memory::new(65536);
    for address in 0..=0xFFFFu16 {
        memory[address] = 0x0030;
    }
    register[Reg::R_R0] = 0x8000;
    let mut console = Console::new();
    trap_putsp(&register, &memory, &mut console);
    assert_eq!(console.output.len(), 65536);
}

#[test]
fn getc_stores_the_byte_in_r0_without_echo() {
    let mut register = Register::default();
    register[Reg::R_COND] = 0b010;
    let mut console = console_with(&[0x61, 0x62]);
    assert_eq!(trap_getc(&mut register, &mut console), Ok(()));
    assert_eq!(register[Reg::R_R0], 0x61);
    assert_eq!(register[Reg::R_COND], 0b010);
    assert!(console.output.is_empty());
    assert_eq!(console.input.len(), 1);
    assert_eq!(trap_getc(&mut register, &mut console), Ok(()));
    assert_eq!(register[Reg::R_R0], 0x62);
}

#[test]
fn getc_takes_a_byte_above_127_as_its_value() {
    let mut register = Register::default();
    let mut console = console_with(&[0xFF]);
    assert_eq!(trap_getc(&mut register, &mut console), Ok(()));
    assert_eq!(register[Reg::R_R0], 0x00FF);
}

#[test]
fn getc_fails_when_the_input_is_exhausted() {
    let mut register = Register::default();
    register[Reg::R_R0] = 7;
    let mut console = Console::new();
    assert_eq!(trap_getc(&mut register, &mut console), Err(VmError::IOFailure));
    assert_eq!(register[Reg::R_R0], 7);
    assert!(console.output.is_empty());
}

#[test]
fn in_prompts_echoes_and_stores() {
    let mut register = Register::default();
    let mut console = console_with(&[0x7A]);
    assert_eq!(trap_in(&mut register, &mut console), Ok(()));
    assert_eq!(register[Reg::R_R0], 0x7A);
    let mut expected = codes(PROMPT);
    expected.push(0x7A);
    assert_eq!(console.output, expected);
    assert!(console.input.is_empty());
}

#[test]
fn in_fails_after_the_prompt_when_the_input_is_exhausted() {
    let mut register = Register::default();
    register[Reg::R_R0] = 9;
    let mut console = Console::new();
    assert_eq!(trap_in(&mut register, &mut console), Err(VmError::IOFailure));
    assert_eq!(register[Reg::R_R0], 9);
    assert_eq!(console.output, codes(PROMPT));
}

#[test]
fn out_writes_the_value_of_r0() {
    let mut register = Register::default();
    register[Reg::R_R0] = 0x41;
    let mut console = Console::new();
    trap_out(&register, &mut console);
    register[Reg::R_R0] = 0x263A;
    trap_out(&register, &mut console);
    assert_eq!(console.output, vec![0x41, 0x263A]);
}

#[test]
fn op_trap_selects_the_routine_by_the_low_eight_bits() {
    let mut register = Register::default();
    let mut memory = Memory::new(65536);
    store_text(&mut memory, 0x5000, &[0x6948, 0x0000]);
    let mut console = console_with(&[0x31, 0x32]);

    assert_eq!(op_trap(&mut register, 0xF020, &memory, &mut console), Ok(true));
    assert_eq!(register[Reg::R_R0], 0x31);
    assert!(console.output.is_empty());

    assert_eq!(op_trap(&mut register, 0xF021, &memory, &mut console), Ok(true));
    assert_eq!(console.take_output(), vec![0x31]);

    assert_eq!(op_trap(&mut register, 0xF023, &memory, &mut console), Ok(true));
    let mut expected = codes(PROMPT);
    expected.push(0x32);
    assert_eq!(console.take_output(), expected);
    assert_eq!(register[Reg::R_R0], 0x32);

    register[Reg::R_R0] = 0x5000;
    assert_eq!(op_trap(&mut register, 0xF022, &memory, &mut console), Ok(true));
    assert_eq!(console.take_output(), vec![0x48, 0x00]);

    assert_eq!(op_trap(&mut register, 0xF024, &memory, &mut console), Ok(true));
    assert_eq!(console.take_output(), vec![0x48, 0x69]);

    assert_eq!(op_trap(&mut register, 0xF025, &memory, &mut console), Ok(false));
    assert!(console.output.is_empty());
    assert_eq!(register[Reg::R_R0], 0x5000);
}

#[test]
fn op_trap_ignores_bits_eleven_to_eight() {
    let mut register = Register::default();
    register[Reg::R_R0] = 0x41;
    let memory = Memory::new(65536);
    let mut console = Console::new();
    assert_eq!(op_trap(&mut register, 0xFF21, &memory, &mut console), Ok(true));
    assert_eq!(console.output, vec![0x41]);
}

#[test]
fn op_trap_reports_an_exhausted_input() {
    let mut register = Register::default();
    let memory = Memory::new(65536);
    let mut console = Console::new();
    assert_eq!(op_trap(&mut register, 0xF020, &memory, &mut console), Err(VmError::IOFailure));
    assert_eq!(op_trap(&mut register, 0xF023, &memory, &mut console), Err(VmError::IOFailure));
}

#[test]
fn op_trap_halts_on_a_vector_that_names_no_routine() {
    let mut register = Register::default();
    let memory = Memory::new(65536);
    let mut console = Console::new();
    assert_eq!(op_trap(&mut register, 0xF000, &memory, &mut console), Ok(false));
    assert_eq!(op_trap(&mut register, 0xF0FF, &memory, &mut console), Ok(false));
    assert!(console.output.is_empty());
}

#[test]
fn trap_vectors_map_to_routines() {
    assert_eq!(Traps::from_u16(32), Traps::TRAP_GETC);
    assert_eq!(Traps::from_u16(33), Traps::TRAP_OUT);
    assert_eq!(Traps::from_u16(34), Traps::TRAP_PUTS);
    assert_eq!(Traps::from_u16(35), Traps::TRAP_IN);
    assert_eq!(Traps::from_u16(36), Traps::TRAP_PUTSP);
    assert_eq!(Traps::from_u16(37), Traps::TRAP_HALT);
    assert_eq!(Traps::from_u16(0), Traps::TRAP_HALT);
    assert_eq!(Traps::from_u16(31), Traps::TRAP_HALT);
    assert_eq!(Traps::from_u16(38), Traps::TRAP_HALT);
    assert_eq!(Traps::from_u16(0xFFFF), Traps::TRAP_HALT);
}

#[test]
fn only_getc_and_in_read_input() {
    assert!(Traps::TRAP_GETC.reads_input());
    assert!(Traps::TRAP_IN.reads_input());
    assert!(!Traps::TRAP_OUT.reads_input());
    assert!(!Traps::TRAP_PUTS.reads_input());
    assert!(!Traps::TRAP_PUTSP.reads_input());
    assert!(!Traps::TRAP_HALT.reads_input());
}

#[test]
fn console_hands_bytes_out_in_order() {
    let mut console = Console::new();
    assert!(!console.has_input());
    assert_eq!(console.read_byte(), None);
    console.feed(1);
    console.feed(2);
    assert!(console.has_input());
    assert_eq!(console.read_byte(), Some(1));
    console.feed(3);
    assert_eq!(console.read_byte(), Some(2));
    assert_eq!(console.read_byte(), Some(3));
    assert_eq!(console.read_byte(), None);
}

#[test]
fn console_take_output_empties_the_buffer() {
    let mut console = Console::new();
    console.write_char(0x41);
    console.write_char(0x42);
    assert_eq!(console.take_output(), vec![0x41, 0x42]);
    assert!(console.output.is_empty());
    assert!(console.take_output().is_empty());
}
