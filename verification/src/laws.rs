//! Laws of the machine: properties that hold of every state and program, each
//! proved against [`crate::cpu::spec_step`] and the component models.

use vstd::prelude::*;

use crate::alu::Flag;
use crate::alu::Operation;
use crate::alu::spec_flag_value;
use crate::alu::spec_flags_after;
use crate::alu::spec_intermediate;
use crate::alu::spec_result_byte;
use crate::cpu::Cpu;
use crate::cpu::spec_reg_read;
use crate::cpu::spec_step;
use crate::cpu::spec_wrap_inc;
use crate::decoder::InstrType;
use crate::decoder::Register;
use crate::decoder::spec_decode;
use crate::decoder::spec_flag_field;
use crate::decoder::spec_flag_sel;
use crate::decoder::spec_low_field;
use crate::decoder::spec_register;
use crate::decoder::spec_src_field;
use crate::fault::Fault;
use crate::registers::Registers;
use crate::registers::spec_hl;

verus! {

/// Immediate load: for every opcode from 0x00 to 0x06, stepping loads the
/// byte after the opcode into the register the low field maps, and the
/// program counter advances by exactly two from its pre-fetch value. Nothing
/// in data memory moves.
pub proof fn lemma_immediate_load(cpu: Cpu, rom: Seq<u8>, ram: Seq<u8>, dst: Register)
    requires
        cpu.registers.program_counter + 2 <= 0xFFFF,
        cpu.registers.program_counter + 1 < rom.len(),
        rom[cpu.registers.program_counter as int] <= 0x06,
        spec_register(spec_low_field(rom[cpu.registers.program_counter as int])) == Some(dst),
    ensures
        ({
            let pc = cpu.registers.program_counter;
            let s = spec_step(cpu, rom, ram);
            &&& s.result == Ok::<bool, Fault>(false)
            &&& spec_reg_read(s.cpu, dst) == rom[pc as int + 1]
            &&& s.cpu.registers.program_counter as int == pc as int + 2
            &&& s.ram == ram
        }),
{
}

/// Arithmetic/logic step: the flags committed are those of the intermediate
/// value of the decoded operation over the accumulator, the selected operand
/// register and the carry flag — the same four flags whether or not the
/// result is committed. A compare-class instruction never mutates the
/// accumulator; the committing class replaces it with the truncated result.
/// The general registers, the stack pointer and data memory do not move.
pub proof fn lemma_alu_step(
    cpu: Cpu,
    rom: Seq<u8>,
    ram: Seq<u8>,
    cmp: bool,
    op: Operation,
    src: Register,
)
    requires
        cpu.registers.program_counter < rom.len(),
        spec_decode(rom[cpu.registers.program_counter as int]) == Ok::<InstrType, Fault>(
            InstrType::ALUOP { cmp, op },
        ),
        spec_register(spec_src_field(rom[cpu.registers.program_counter as int])) == Some(src),
    ensures
        ({
            let pc = cpu.registers.program_counter;
            let operand = spec_reg_read(cpu, src);
            let v = spec_intermediate(op, cpu.alu.accumulator, operand, cpu.alu.flags.carry);
            let s = spec_step(cpu, rom, ram);
            &&& s.result == Ok::<bool, Fault>(false)
            &&& s.ram == ram
            &&& s.cpu.alu.flags == spec_flags_after(v)
            &&& (cmp ==> s.cpu.alu.accumulator == cpu.alu.accumulator)
            &&& (!cmp ==> s.cpu.alu.accumulator == spec_result_byte(v))
            &&& s.cpu.registers == (Registers {
                program_counter: spec_wrap_inc(pc),
                ..cpu.registers
            })
        }),
{
}

/// Halt: a step that fetches the halt opcode reports the machine halted and
/// mutates nothing beyond the fetch itself — the program counter advances by
/// one and the opcode is latched; registers, flags and data memory are
/// untouched.
pub proof fn lemma_halt(cpu: Cpu, rom: Seq<u8>, ram: Seq<u8>)
    requires
        cpu.registers.program_counter < rom.len(),
        rom[cpu.registers.program_counter as int] == 0xFF,
    ensures
        ({
            let s = spec_step(cpu, rom, ram);
            &&& s.result == Ok::<bool, Fault>(true)
            &&& s.ram == ram
            &&& s.cpu.alu == cpu.alu
            &&& s.cpu.registers == (Registers {
                program_counter: spec_wrap_inc(cpu.registers.program_counter),
                ..cpu.registers
            })
        }),
{
}

/// Jump-if-flag-set: with the selected flag true, the program counter is set
/// to the composite pointer; with it false, the program counter keeps its
/// post-fetch value. Everything else, data memory included, is untouched.
pub proof fn lemma_jump_if_set(cpu: Cpu, rom: Seq<u8>, ram: Seq<u8>, sel: Flag)
    requires
        cpu.registers.program_counter < rom.len(),
        ({
            let opcode = rom[cpu.registers.program_counter as int];
            opcode == 0xCC || opcode == 0xDC || opcode == 0xEC || opcode == 0xFC
        }),
        spec_flag_sel(spec_flag_field(rom[cpu.registers.program_counter as int])) == sel,
    ensures
        ({
            let s = spec_step(cpu, rom, ram);
            let taken = spec_flag_value(cpu.alu.flags, sel);
            &&& s.result == Ok::<bool, Fault>(false)
            &&& s.ram == ram
            &&& s.cpu.alu == cpu.alu
            &&& (taken ==> s.cpu.registers.program_counter == spec_hl(cpu.registers))
            &&& (!taken ==> s.cpu.registers.program_counter == spec_wrap_inc(
                cpu.registers.program_counter,
            ))
            &&& s.cpu.registers == (Registers {
                program_counter: s.cpu.registers.program_counter,
                ..cpu.registers
            })
        }),
{
}

/// Jump-if-flag-reset: the mirror of [`lemma_jump_if_set`] — the jump is
/// taken exactly when the selected flag is false.
pub proof fn lemma_jump_if_reset(cpu: Cpu, rom: Seq<u8>, ram: Seq<u8>, sel: Flag)
    requires
        cpu.registers.program_counter < rom.len(),
        ({
            let opcode = rom[cpu.registers.program_counter as int];
            opcode == 0xC4 || opcode == 0xD4 || opcode == 0xE4 || opcode == 0xF4
        }),
        spec_flag_sel(spec_flag_field(rom[cpu.registers.program_counter as int])) == sel,
    ensures
        ({
            let s = spec_step(cpu, rom, ram);
            let taken = !spec_flag_value(cpu.alu.flags, sel);
            &&& s.result == Ok::<bool, Fault>(false)
            &&& s.ram == ram
            &&& s.cpu.alu == cpu.alu
            &&& (taken ==> s.cpu.registers.program_counter == spec_hl(cpu.registers))
            &&& (!taken ==> s.cpu.registers.program_counter == spec_wrap_inc(
                cpu.registers.program_counter,
            ))
            &&& s.cpu.registers == (Registers {
                program_counter: s.cpu.registers.program_counter,
                ..cpu.registers
            })
        }),
{
}

/// Load-stack-pointer: stepping the 0x3F opcode sets the stack pointer to
/// exactly the composite pointer value at the time of commit, and H and L
/// are the same at commit as before the step. Data memory and the
/// arithmetic/logic unit are untouched.
pub proof fn lemma_load_stack_pointer(cpu: Cpu, rom: Seq<u8>, ram: Seq<u8>)
    requires
        cpu.registers.program_counter < rom.len(),
        rom[cpu.registers.program_counter as int] == 0x3F,
    ensures
        ({
            let s = spec_step(cpu, rom, ram);
            &&& s.result == Ok::<bool, Fault>(false)
            &&& s.ram == ram
            &&& s.cpu.alu == cpu.alu
            &&& s.cpu.registers.stack_pointer == spec_hl(s.cpu.registers)
            &&& s.cpu.registers == (Registers {
                stack_pointer: spec_hl(cpu.registers),
                program_counter: spec_wrap_inc(cpu.registers.program_counter),
                ..cpu.registers
            })
        }),
{
}

/// Subtract with borrow while the carry flag is set computes
/// accumulator − operand − 1 as its intermediate value, so the returned byte
/// is that difference truncated to the 8-bit domain.
pub proof fn lemma_subtract_with_borrow(acc: u8, temp: u8)
    ensures
        spec_intermediate(Operation::SUBB, acc, temp, true) == acc - temp - 1,
{
}

/// A step that raises a fault leaves data memory untouched: every write is
/// bounds-checked before it lands, and no instruction writes memory and
/// faults afterwards within one cycle.
pub proof fn lemma_fault_leaves_data_memory(cpu: Cpu, rom: Seq<u8>, ram: Seq<u8>)
    ensures
        ({
            let s = spec_step(cpu, rom, ram);
            s.result is Err ==> s.ram == ram
        }),
{
}

/// Classification is one pure function of the opcode byte, so the operand
/// and commit phases can never disagree: no input produces the consistency
/// fault.
pub proof fn lemma_no_consistency_fault(cpu: Cpu, rom: Seq<u8>, ram: Seq<u8>)
    ensures
        spec_step(cpu, rom, ram).result != Err::<bool, Fault>(Fault::Consistency),
{
}

/// The selected operation rests at no-op between instruction cycles: a step
/// either leaves the operation register alone or returns it to no-op, so a
/// machine that starts idle stays idle outside the decode-to-commit window
/// that runs inside a single step.
pub proof fn lemma_operation_rests(cpu: Cpu, rom: Seq<u8>, ram: Seq<u8>)
    ensures
        ({
            let s = spec_step(cpu, rom, ram);
            s.cpu.alu.op == cpu.alu.op || s.cpu.alu.op == Operation::NOP
        }),
{
}

} // verus!
