//! The trap routines.
//!
//! A trap instruction does not jump to code in memory: the routine that its
//! vector selects is carried out here, against the buffers of a
//! [`Console`]. A routine that reads takes the oldest waiting byte; a routine
//! that writes appends character codes to the output.

use vstd::prelude::*;
use crate::decode::trap_vector;
use crate::decode::spec_trap_vector;
use crate::defs::console::Console;
use crate::defs::error::VmError;
use crate::defs::machine::Machine;
use crate::defs::machine::machine_of;
use crate::defs::memory::Memory;
use crate::defs::memory::ADDRESS_SPACE;
use crate::defs::register::Register;
use crate::defs::register::SLOT_R0;
use crate::defs::traps::Traps;
use crate::operations::helper::wrapping_sum;

verus! {

/// Bits 7 to 0 of a word: the first character that the word holds.
pub open spec fn low_byte(word: u16) -> u16 {
    word & 0xFF
}

/// Bits 15 to 8 of a word: the second character that a packed word holds.
pub open spec fn high_byte(word: u16) -> u16 {
    word >> 8
}

/// What PUTS writes for the string at `start`: the low byte of each word in
/// turn, up to and including the first that is zero. Addresses wrap, and
/// `limit` bounds the number of words visited.
pub open spec fn puts_text(mem: Seq<u16>, start: u16, limit: nat) -> Seq<u16>
    decreases limit,
{
    if limit == 0 {
        Seq::empty()
    } else if low_byte(mem[start as int]) == 0 {
        seq![0u16]
    } else {
        seq![low_byte(mem[start as int])] + puts_text(
            mem,
            wrapping_sum(start, 1),
            (limit - 1) as nat,
        )
    }
}

/// The characters that one packed word holds: its low byte, then its high
/// byte unless that is zero.
pub open spec fn packed_chars(word: u16) -> Seq<u16> {
    if high_byte(word) == 0 {
        seq![low_byte(word)]
    } else {
        seq![low_byte(word), high_byte(word)]
    }
}

/// What PUTSP writes for the string at `start`: the characters of each word
/// in turn, up to but not including the first word whose low byte is zero.
/// Addresses wrap, and `limit` bounds the number of words visited.
pub open spec fn putsp_text(mem: Seq<u16>, start: u16, limit: nat) -> Seq<u16>
    decreases limit,
{
    if limit == 0 || low_byte(mem[start as int]) == 0 {
        Seq::empty()
    } else {
        packed_chars(mem[start as int]) + putsp_text(
            mem,
            wrapping_sum(start, 1),
            (limit - 1) as nat,
        )
    }
}

/// The address `n` words after `start`, wrapping.
pub open spec fn nth_address(start: u16, n: int) -> u16 {
    ((start + n) % (ADDRESS_SPACE as int)) as u16
}

/// The characters of the `count` packed words from `start` on.
pub open spec fn packed_run(mem: Seq<u16>, start: u16, count: nat) -> Seq<u16>
    decreases count,
{
    if count == 0 {
        Seq::empty()
    } else {
        packed_chars(mem[start as int]) + packed_run(
            mem,
            wrapping_sum(start, 1),
            (count - 1) as nat,
        )
    }
}

/// The prompt of IN, as character codes: `Enter a character: `.
pub open spec fn prompt_text() -> Seq<u16> {
    seq![
        0x45u16, 0x6E, 0x74, 0x65, 0x72, 0x20, 0x61, 0x20, 0x63, 0x68, 0x61, 0x72, 0x61, 0x63,
        0x74, 0x65, 0x72, 0x3A, 0x20,
    ]
}

/// The machine after a trap instruction, and whether it still runs.
///
/// A routine that needs an input byte and finds none fails with
/// `IOFailure`. HALT leaves the machine as it is and reports that it has
/// stopped; every other routine that succeeds reports that it runs on.
pub open spec fn trap_result(m: Machine, instr: u16) -> (Machine, Result<bool, VmError>) {
    match Traps::spec_from_u16(spec_trap_vector(instr)) {
        Traps::TRAP_GETC => if m.input.len() == 0 {
            (m, Err(VmError::IOFailure))
        } else {
            (
                Machine {
                    regs: m.regs.update(SLOT_R0 as int, m.input[0] as u16),
                    input: m.input.skip(1),
                    ..m
                },
                Ok(true),
            )
        },
        Traps::TRAP_OUT => (
            Machine { output: m.output.push(m.regs[SLOT_R0 as int]), ..m },
            Ok(true),
        ),
        Traps::TRAP_PUTS => (
            Machine {
                output: m.output + puts_text(m.mem, m.regs[SLOT_R0 as int], ADDRESS_SPACE as nat),
                ..m
            },
            Ok(true),
        ),
        Traps::TRAP_IN => if m.input.len() == 0 {
            (Machine { output: m.output + prompt_text(), ..m }, Err(VmError::IOFailure))
        } else {
            (
                Machine {
                    regs: m.regs.update(SLOT_R0 as int, m.input[0] as u16),
                    input: m.input.skip(1),
                    output: (m.output + prompt_text()).push(m.input[0] as u16),
                    ..m
                },
                Ok(true),
            )
        },
        Traps::TRAP_PUTSP => (
            Machine {
                output: m.output + putsp_text(m.mem, m.regs[SLOT_R0 as int], ADDRESS_SPACE as nat),
                ..m
            },
            Ok(true),
        ),
        Traps::TRAP_HALT => (m, Ok(false)),
    }
}

/// GETC: takes one byte from the input and stores its value in R0, without
/// echo. When the input is exhausted nothing changes and the routine fails.
pub fn trap_getc(reg: &mut Register, console: &mut Console) -> (r: Result<(), VmError>)
    ensures
        final(console).output@ == old(console).output@,
        old(console).input@.len() == 0 ==> {
            &&& r == Err::<(), VmError>(VmError::IOFailure)
            &&& final(reg)@ == old(reg)@
            &&& final(console).input@ == old(console).input@
        },
        old(console).input@.len() > 0 ==> {
            &&& r == Ok::<(), VmError>(())
            &&& final(reg)@ == old(reg)@.update(SLOT_R0 as int, old(console).input@[0] as u16)
            &&& final(console).input@ == old(console).input@.skip(1)
        },
{
    match console.read_byte() {
        Some(byte) => {
            reg.set(SLOT_R0, byte as u16);
            Ok(())
        },
        None => Err(VmError::IOFailure),
    }
}

/// OUT: writes the value of R0 as one character.
pub fn trap_out(reg: &Register, console: &mut Console)
    ensures
        final(console).input@ == old(console).input@,
        final(console).output@ == old(console).output@.push(reg@[SLOT_R0 as int]),
{
    console.write_char(reg.get(SLOT_R0));
}

/// PUTS: writes the string that starts at the address in R0, one character
/// to a word, the terminating zero included.
///
/// The walk wraps at the end of the address space and gives up after one
/// pass over it, which only a memory without a single zero low byte brings
/// about.
pub fn trap_puts(reg: &Register, memory: &Memory, console: &mut Console)
    requires
        memory.wf(),
    ensures
        final(console).input@ == old(console).input@,
        final(console).output@ == old(console).output@ + puts_text(
            memory@,
            reg@[SLOT_R0 as int],
            ADDRESS_SPACE as nat,
        ),
{
    let mut address: u16 = reg.get(SLOT_R0);
    let mut remaining: usize = ADDRESS_SPACE;
    while remaining > 0
        invariant
            memory.wf(),
            console.input@ == old(console).input@,
            remaining <= ADDRESS_SPACE,
            old(console).output@ + puts_text(memory@, reg@[SLOT_R0 as int], ADDRESS_SPACE as nat)
                == console.output@ + puts_text(memory@, address, remaining as nat),
        decreases remaining,
    {
        let code: u16 = memory.read(address) & 0xFF;
        console.write_char(code);
        if code == 0 {
            remaining = 0;
        } else {
            address = address.wrapping_add(1);
            remaining = remaining - 1;
        }
    }
}

/// IN: writes the prompt, takes one byte from the input, echoes it and
/// stores its value in R0. When the input is exhausted the prompt has been
/// written, R0 is unchanged and the routine fails.
pub fn trap_in(reg: &mut Register, console: &mut Console) -> (r: Result<(), VmError>)
    ensures
        old(console).input@.len() == 0 ==> {
            &&& r == Err::<(), VmError>(VmError::IOFailure)
            &&& final(reg)@ == old(reg)@
            &&& final(console).input@ == old(console).input@
            &&& final(console).output@ == old(console).output@ + prompt_text()
        },
        old(console).input@.len() > 0 ==> {
            &&& r == Ok::<(), VmError>(())
            &&& final(reg)@ == old(reg)@.update(SLOT_R0 as int, old(console).input@[0] as u16)
            &&& final(console).input@ == old(console).input@.skip(1)
            &&& final(console).output@ == (old(console).output@ + prompt_text()).push(
                old(console).input@[0] as u16,
            )
        },
{
    let prompt: [u16; 19] = [
        0x45, 0x6E, 0x74, 0x65, 0x72, 0x20, 0x61, 0x20, 0x63, 0x68, 0x61, 0x72, 0x61, 0x63, 0x74,
        0x65, 0x72, 0x3A, 0x20,
    ];
    let mut i: usize = 0;
    while i < 19
        invariant
            i <= 19,
            prompt@ == prompt_text(),
            console.input@ == old(console).input@,
            console.output@ == old(console).output@ + prompt@.take(i as int),
        decreases 19 - i,
    {
        console.write_char(prompt[i]);
        i = i + 1;
    }
    match console.read_byte() {
        Some(byte) => {
            console.write_char(byte as u16);
            reg.set(SLOT_R0, byte as u16);
            Ok(())
        },
        None => Err(VmError::IOFailure),
    }
}

/// PUTSP: writes the string that starts at the address in R0, two characters
/// to a word: for each word its low byte, then its high byte unless that is
/// zero. The first word whose low byte is zero ends the string and nothing
/// of it is written.
///
/// The walk wraps at the end of the address space and gives up after one
/// pass over it, which only a memory without a single zero low byte brings
/// about.
pub fn trap_putsp(reg: &Register, memory: &Memory, console: &mut Console)
    requires
        memory.wf(),
    ensures
        final(console).input@ == old(console).input@,
        final(console).output@ == old(console).output@ + putsp_text(
            memory@,
            reg@[SLOT_R0 as int],
            ADDRESS_SPACE as nat,
        ),
{
    let mut address: u16 = reg.get(SLOT_R0);
    let mut remaining: usize = ADDRESS_SPACE;
    while remaining > 0
        invariant
            memory.wf(),
            console.input@ == old(console).input@,
            remaining <= ADDRESS_SPACE,
            old(console).output@ + putsp_text(memory@, reg@[SLOT_R0 as int], ADDRESS_SPACE as nat)
                == console.output@ + putsp_text(memory@, address, remaining as nat),
        decreases remaining,
    {
        let word: u16 = memory.read(address);
        let low: u16 = word & 0xFF;
        if low == 0 {
            remaining = 0;
        } else {
            let high: u16 = word >> 8;
            console.write_char(low);
            if high != 0 {
                console.write_char(high);
            }
            address = address.wrapping_add(1);
            remaining = remaining - 1;
        }
    }
}

/// HALT: the machine stops running.
pub fn trap_halt(running: &mut bool)
    ensures
        *final(running) == false,
{
    *running = false;
}

/// TRAP: carries out the routine that bits 7 to 0 of the instruction select,
/// and reports whether the machine still runs. Only HALT stops it.
///
/// ```text
/// 1111 0000 trap_vector
/// ```
pub fn op_trap(reg: &mut Register, instr: u16, memory: &Memory, console: &mut Console) -> (r:
    Result<bool, VmError>)
    requires
        memory.wf(),
    ensures
        (machine_of(*final(reg), *memory, *final(console)), r) == trap_result(
            machine_of(*old(reg), *memory, *old(console)),
            instr,
        ),
{
    let mut running: bool = true;
    let outcome: Result<(), VmError> = match Traps::from_u16(trap_vector(instr)) {
        Traps::TRAP_GETC => trap_getc(reg, console),
        Traps::TRAP_HALT => {
            trap_halt(&mut running);
            Ok(())
        },
        Traps::TRAP_IN => trap_in(reg, console),
        Traps::TRAP_OUT => {
            trap_out(reg, console);
            Ok(())
        },
        Traps::TRAP_PUTS => {
            trap_puts(reg, memory, console);
            Ok(())
        },
        Traps::TRAP_PUTSP => {
            trap_putsp(reg, memory, console);
            Ok(())
        },
    };
    match outcome {
        Ok(()) => Ok(running),
        Err(e) => Err(e),
    }
}

/// A packed word whose high byte is zero yields its low byte and no second
/// character; any other packed word yields both bytes, low byte first.
pub proof fn lemma_packed_chars(word: u16)
    ensures
        high_byte(word) == 0 ==> packed_chars(word) == seq![low_byte(word)],
        high_byte(word) != 0 ==> packed_chars(word) == seq![low_byte(word), high_byte(word)],
        low_byte(word) < 256,
        high_byte(word) < 256,
{
    assert(word & 0xFF < 256 && word >> 8 < 256) by (bit_vector);
}

/// PUTSP stops precisely at the first word whose low byte is zero: when the
/// `count` words from `start` on all have a non-zero low byte and the next
/// one has a zero low byte, the text is what those `count` words hold, no
/// less and no more.
pub proof fn lemma_putsp_stops_at_first_zero(mem: Seq<u16>, start: u16, limit: nat, count: nat)
    requires
        mem.len() == ADDRESS_SPACE,
        count < limit,
        forall|j: int| 0 <= j < count ==> low_byte(mem[nth_address(start, j) as int]) != 0,
        low_byte(mem[nth_address(start, count as int) as int]) == 0,
    ensures
        putsp_text(mem, start, limit) == packed_run(mem, start, count),
    decreases count,
{
    assert(nth_address(start, 0) == start);
    if count > 0 {
        let next = wrapping_sum(start, 1);
        assert forall|j: int| 0 <= j < count - 1 implies low_byte(
            mem[nth_address(next, j) as int],
        ) != 0 by {
            assert(nth_address(next, j) == nth_address(start, j + 1));
        }
        lemma_putsp_stops_at_first_zero(mem, next, (limit - 1) as nat, (count - 1) as nat);
    }
}

/// PUTS stops precisely at the first word whose low byte is zero: when the
/// `count` words from `start` on all have a non-zero low byte and the next
/// one has a zero low byte, the text is the low bytes of those `count + 1`
/// words, the closing zero last.
pub proof fn lemma_puts_stops_at_first_zero(mem: Seq<u16>, start: u16, limit: nat, count: nat)
    requires
        mem.len() == ADDRESS_SPACE,
        count < limit,
        forall|j: int| 0 <= j < count ==> low_byte(mem[nth_address(start, j) as int]) != 0,
        low_byte(mem[nth_address(start, count as int) as int]) == 0,
    ensures
        puts_text(mem, start, limit) == Seq::new(
            count + 1,
            |j: int| low_byte(mem[nth_address(start, j) as int]),
        ),
    decreases count,
{
    assert(nth_address(start, 0) == start);
    if count > 0 {
        let next = wrapping_sum(start, 1);
        assert forall|j: int| 0 <= j < count - 1 implies low_byte(
            mem[nth_address(next, j) as int],
        ) != 0 by {
            assert(nth_address(next, j) == nth_address(start, j + 1));
        }
        lemma_puts_stops_at_first_zero(mem, next, (limit - 1) as nat, (count - 1) as nat);
    }
}

} // verus!
