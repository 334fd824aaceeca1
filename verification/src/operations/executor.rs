//! Dispatch of one instruction, and the fetch-execute cycle around it.

use vstd::prelude::*;
use crate::decode::lemma_field_bounds;
use crate::decode::opcode;
use crate::decode::spec_dr;
use crate::decode::trap_vector;
use crate::decode::spec_opcode;
use crate::decode::spec_trap_vector;
use crate::defs::cond_flags::flag_bits_for;
use crate::defs::cond_flags::is_single_flag;
use crate::defs::console::Console;
use crate::defs::error::VmError;
use crate::defs::machine::Machine;
use crate::defs::machine::machine_of;
use crate::defs::memory::Memory;
use crate::defs::opcode::Opcode;
use crate::defs::register::Register;
use crate::defs::register::SLOT_COND;
use crate::defs::register::SLOT_PC;
use crate::defs::traps::Traps;
use crate::operations::arith::add_result;
use crate::operations::arith::and_result;
use crate::operations::arith::not_result;
use crate::operations::arith::op_add;
use crate::operations::arith::op_and;
use crate::operations::arith::op_not;
use crate::operations::control::br_result;
use crate::operations::control::jmp_result;
use crate::operations::control::jsr_result;
use crate::operations::control::op_br;
use crate::operations::control::op_jmp;
use crate::operations::control::op_jsr;
use crate::operations::helper::wrapping_sum;
use crate::operations::load::ld_result;
use crate::operations::load::ldi_result;
use crate::operations::load::ldr_result;
use crate::operations::load::lea_result;
use crate::operations::load::op_ld;
use crate::operations::load::op_ldi;
use crate::operations::load::op_ldr;
use crate::operations::load::op_lea;
use crate::operations::reserved::op_res;
use crate::operations::reserved::op_rti;
use crate::operations::store::op_st;
use crate::operations::store::op_sti;
use crate::operations::store::op_str;
use crate::operations::store::st_result;
use crate::operations::store::sti_result;
use crate::operations::store::str_result;
use crate::operations::traps::op_trap;
use crate::operations::traps::trap_result;

verus! {

/// The machine after the instruction `instr`, and whether it still runs.
///
/// The opcode in bits 15 to 12 selects the handler. A reserved opcode changes
/// nothing and fails with `InvalidOpcode`. Every instruction but a trap
/// leaves the machine running.
pub open spec fn execute_result(m: Machine, instr: u16) -> (Machine, Result<bool, VmError>) {
    match spec_opcode(instr) {
        Opcode::OP_BR => (Machine { regs: br_result(m.regs, instr), ..m }, Ok(true)),
        Opcode::OP_ADD => (Machine { regs: add_result(m.regs, instr), ..m }, Ok(true)),
        Opcode::OP_LD => (Machine { regs: ld_result(m.regs, m.mem, instr), ..m }, Ok(true)),
        Opcode::OP_ST => (Machine { mem: st_result(m.regs, m.mem, instr), ..m }, Ok(true)),
        Opcode::OP_JSR => (Machine { regs: jsr_result(m.regs, instr), ..m }, Ok(true)),
        Opcode::OP_AND => (Machine { regs: and_result(m.regs, instr), ..m }, Ok(true)),
        Opcode::OP_LDR => (Machine { regs: ldr_result(m.regs, m.mem, instr), ..m }, Ok(true)),
        Opcode::OP_STR => (Machine { mem: str_result(m.regs, m.mem, instr), ..m }, Ok(true)),
        Opcode::OP_RTI => (m, Err(VmError::InvalidOpcode)),
        Opcode::OP_NOT => (Machine { regs: not_result(m.regs, instr), ..m }, Ok(true)),
        Opcode::OP_LDI => (Machine { regs: ldi_result(m.regs, m.mem, instr), ..m }, Ok(true)),
        Opcode::OP_STI => (Machine { mem: sti_result(m.regs, m.mem, instr), ..m }, Ok(true)),
        Opcode::OP_JMP => (Machine { regs: jmp_result(m.regs, instr), ..m }, Ok(true)),
        Opcode::OP_RES => (m, Err(VmError::InvalidOpcode)),
        Opcode::OP_LEA => (Machine { regs: lea_result(m.regs, instr), ..m }, Ok(true)),
        Opcode::OP_TRAP => trap_result(m, instr),
    }
}

/// The instruction that the next step executes: the word at the program
/// counter.
pub open spec fn fetched(m: Machine) -> u16 {
    m.mem[m.regs[SLOT_PC as int] as int]
}

/// The machine with the program counter moved to the next word, wrapping.
pub open spec fn advanced(m: Machine) -> Machine {
    Machine {
        regs: m.regs.update(SLOT_PC as int, wrapping_sum(m.regs[SLOT_PC as int], 1)),
        ..m
    }
}

/// The machine after one step, and whether it still runs: the instruction at
/// the program counter is fetched, the program counter moves past it, and
/// the instruction is executed.
pub open spec fn step_result(m: Machine) -> (Machine, Result<bool, VmError>) {
    execute_result(advanced(m), fetched(m))
}

/// The machine after a run of at most `budget` steps, and how the run ended:
/// `Ok(false)` when HALT was executed, an error when a step failed, and
/// `Ok(true)` when the budget ran out with the machine still running. No step
/// is taken after the one that halts or fails.
pub open spec fn run_result(m: Machine, budget: nat) -> (Machine, Result<bool, VmError>)
    decreases budget,
{
    if budget == 0 {
        (m, Ok(true))
    } else {
        let (next, outcome) = step_result(m);
        if outcome == Ok::<bool, VmError>(true) {
            run_result(next, (budget - 1) as nat)
        } else {
            (next, outcome)
        }
    }
}

/// Whether the next step of a machine with these registers and this memory
/// is a trap that takes a byte from the input.
pub open spec fn next_reads_input(regs: Seq<u16>, mem: Seq<u16>) -> bool {
    let instr = mem[regs[SLOT_PC as int] as int];
    &&& spec_opcode(instr) == Opcode::OP_TRAP
    &&& Traps::spec_from_u16(spec_trap_vector(instr)).spec_reads_input()
}

/// Executes the instruction `instr` and reports whether the machine still
/// runs.
pub fn execute(instr: u16, reg: &mut Register, memory: &mut Memory, console: &mut Console) -> (r:
    Result<bool, VmError>)
    requires
        old(memory).wf(),
    ensures
        final(memory).wf(),
        (machine_of(*final(reg), *final(memory), *final(console)), r) == execute_result(
            machine_of(*old(reg), *old(memory), *old(console)),
            instr,
        ),
{
    match opcode(instr) {
        Opcode::OP_ST => {
            op_st(reg, instr, memory);
            Ok(true)
        },
        Opcode::OP_STI => {
            op_sti(reg, instr, memory);
            Ok(true)
        },
        Opcode::OP_STR => {
            op_str(reg, instr, memory);
            Ok(true)
        },
        Opcode::OP_BR => {
            op_br(reg, instr);
            Ok(true)
        },
        Opcode::OP_LD => {
            op_ld(reg, instr, memory);
            Ok(true)
        },
        Opcode::OP_ADD => {
            op_add(reg, instr);
            Ok(true)
        },
        Opcode::OP_AND => {
            op_and(reg, instr);
            Ok(true)
        },
        Opcode::OP_JMP => {
            op_jmp(reg, instr);
            Ok(true)
        },
        Opcode::OP_JSR => {
            op_jsr(reg, instr);
            Ok(true)
        },
        Opcode::OP_LDI => {
            op_ldi(reg, instr, memory);
            Ok(true)
        },
        Opcode::OP_LDR => {
            op_ldr(reg, instr, memory);
            Ok(true)
        },
        Opcode::OP_LEA => {
            op_lea(reg, instr);
            Ok(true)
        },
        Opcode::OP_NOT => {
            op_not(reg, instr);
            Ok(true)
        },
        Opcode::OP_RES => op_res(),
        Opcode::OP_RTI => op_rti(),
        Opcode::OP_TRAP => op_trap(reg, instr, memory, console),
    }
}

/// Whether the next step is a trap that takes a byte from the input. A host
/// asks this before a step, to know whether to read a byte first.
pub fn awaits_input(reg: &Register, memory: &Memory) -> (b: bool)
    requires
        memory.wf(),
    ensures
        b == next_reads_input(reg@, memory@),
{
    let instr: u16 = memory.read(reg.get(SLOT_PC));
    match opcode(instr) {
        Opcode::OP_TRAP => Traps::from_u16(trap_vector(instr)).reads_input(),
        _ => false,
    }
}

/// Takes one step: fetches the instruction at the program counter, moves the
/// program counter past it, and executes the instruction. Reports whether the
/// machine still runs.
pub fn step(reg: &mut Register, memory: &mut Memory, console: &mut Console) -> (r: Result<
    bool,
    VmError,
>)
    requires
        old(memory).wf(),
    ensures
        final(memory).wf(),
        (machine_of(*final(reg), *final(memory), *final(console)), r) == step_result(
            machine_of(*old(reg), *old(memory), *old(console)),
        ),
{
    let pc: u16 = reg.get(SLOT_PC);
    let instr: u16 = memory.read(pc);
    reg.set(SLOT_PC, pc.wrapping_add(1));
    execute(instr, reg, memory, console)
}

/// Runs the machine for at most `max_steps` steps. The run ends early when
/// HALT is executed, with `Ok(false)`, or when a step fails, with its error;
/// it ends with `Ok(true)` when the steps are used up and the machine still
/// runs, so that a caller may go on.
pub fn run(reg: &mut Register, memory: &mut Memory, console: &mut Console, max_steps: u64) -> (r:
    Result<bool, VmError>)
    requires
        old(memory).wf(),
    ensures
        final(memory).wf(),
        (machine_of(*final(reg), *final(memory), *final(console)), r) == run_result(
            machine_of(*old(reg), *old(memory), *old(console)),
            max_steps as nat,
        ),
{
    let ghost start = machine_of(*reg, *memory, *console);
    let mut remaining: u64 = max_steps;
    let mut outcome: Result<bool, VmError> = Ok(true);
    let mut running: bool = true;
    while remaining > 0 && running
        invariant
            memory.wf(),
            running <==> outcome == Ok::<bool, VmError>(true),
            run_result(start, max_steps as nat) == (if running {
                run_result(machine_of(*reg, *memory, *console), remaining as nat)
            } else {
                (machine_of(*reg, *memory, *console), outcome)
            }),
        decreases remaining,
    {
        outcome = step(reg, memory, console);
        running =
        match outcome {
            Ok(true) => true,
            _ => false,
        };
        remaining = remaining - 1;
    }
    outcome
}

/// An instruction keeps the machine well formed. If it writes a
/// general-purpose register, the condition register afterwards describes the
/// value written, and so holds exactly one flag; if it does not, the
/// condition register is as before.
pub proof fn lemma_execute_keeps_flags(m: Machine, instr: u16)
    requires
        m.wf(),
    ensures
        ({
            let after = execute_result(m, instr).0;
            &&& after.wf()
            &&& spec_opcode(instr).sets_flags() ==> after.regs[SLOT_COND as int] == flag_bits_for(
                after.regs[spec_dr(instr) as int],
            ) && is_single_flag(after.regs[SLOT_COND as int])
            &&& !spec_opcode(instr).sets_flags() ==> after.regs[SLOT_COND as int]
                == m.regs[SLOT_COND as int]
        }),
{
    lemma_field_bounds(instr);
}

/// Once the condition register holds exactly one flag it does so after every
/// step, and so at the end of every run.
pub proof fn lemma_run_keeps_single_flag(m: Machine, budget: nat)
    requires
        m.wf(),
        is_single_flag(m.regs[SLOT_COND as int]),
    ensures
        step_result(m).0.wf(),
        is_single_flag(step_result(m).0.regs[SLOT_COND as int]),
        run_result(m, budget).0.wf(),
        is_single_flag(run_result(m, budget).0.regs[SLOT_COND as int]),
    decreases budget,
{
    lemma_execute_keeps_flags(advanced(m), fetched(m));
    if budget > 0 {
        let (next, outcome) = step_result(m);
        if outcome == Ok::<bool, VmError>(true) {
            lemma_run_keeps_single_flag(next, (budget - 1) as nat);
        }
    }
}

/// A reserved opcode is fatal. Executing one changes nothing and fails with
/// `InvalidOpcode`, and nothing else fails so; a step that fetches one fails
/// with the program counter already past it; and a run that reaches one ends
/// there with that error, without taking another step.
pub proof fn lemma_reserved_opcode_is_fatal(m: Machine, instr: u16, budget: nat)
    ensures
        spec_opcode(instr).is_reserved() <==> execute_result(m, instr).1 == Err::<bool, VmError>(
            VmError::InvalidOpcode,
        ),
        spec_opcode(instr).is_reserved() ==> execute_result(m, instr).0 == m,
        spec_opcode(fetched(m)).is_reserved() ==> step_result(m) == (
            advanced(m),
            Err::<bool, VmError>(VmError::InvalidOpcode),
        ),
        spec_opcode(fetched(m)).is_reserved() && budget > 0 ==> run_result(m, budget) == (
            advanced(m),
            Err::<bool, VmError>(VmError::InvalidOpcode),
        ),
{
}

/// A run ends with the first step that halts or fails: the machine and the
/// outcome of the run are those of that step.
pub proof fn lemma_run_ends_with_first_stop(m: Machine, budget: nat)
    requires
        budget > 0,
        step_result(m).1 != Ok::<bool, VmError>(true),
    ensures
        run_result(m, budget) == step_result(m),
{
}

/// Only HALT stops the machine: an instruction reports that the machine has
/// stopped exactly when it is a trap whose vector selects the halt routine.
pub proof fn lemma_only_halt_stops(m: Machine, instr: u16)
    ensures
        execute_result(m, instr).1 == Ok::<bool, VmError>(false) <==> spec_opcode(instr)
            == Opcode::OP_TRAP && Traps::spec_from_u16(spec_trap_vector(instr))
            == Traps::TRAP_HALT,
{
}

} // verus!
