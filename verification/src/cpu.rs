//! The execution engine: one call runs a full fetch/decode/execute cycle for
//! a single instruction over the register file, the arithmetic/logic unit
//! and the two memories.
//!
//! [`spec_step`] is the mathematical model of one cycle: a total function
//! from the machine state, the program bytes and the data bytes to the next
//! state, the next data bytes and the step's result. [`Cpu::execute`]
//! promises to agree with it exactly.

use vstd::prelude::*;

use crate::alu::Alu;
use crate::alu::Operation;
use crate::alu::spec_alu_zeroed;
use crate::alu::spec_flag_value;
use crate::alu::spec_flags_after;
use crate::alu::spec_intermediate;
use crate::alu::spec_result_byte;
use crate::decoder::InstrDecoder;
use crate::decoder::InstrType;
use crate::decoder::Register;
use crate::decoder::spec_decode;
use crate::decoder::spec_flag_field;
use crate::decoder::spec_flag_sel;
use crate::decoder::spec_low_field;
use crate::decoder::spec_register;
use crate::decoder::spec_src_field;
use crate::fault::Fault;
use crate::mem::Mem;
use crate::registers::Registers;
use crate::registers::spec_hl;
use crate::registers::spec_registers_zeroed;

verus! {

/// The processor: register file, instruction decoder and arithmetic/logic
/// unit. Program and data memory are owned by the driver and borrowed for
/// the duration of one step.
#[derive(Clone, Copy, Debug, PartialEq, Eq, Structural)]
pub struct Cpu {
    pub registers: Registers,
    pub decoder: InstrDecoder,
    pub alu: Alu,
}

/// Everything one step determines: the machine state and the data bytes
/// after the step, and the step's result. The result is `Ok(true)` on halt,
/// `Ok(false)` when the next instruction may run, and a fault otherwise.
pub ghost struct StepSpec {
    pub cpu: Cpu,
    pub ram: Seq<u8>,
    pub result: Result<bool, Fault>,
}

/// A 16-bit counter advanced by one, wrapping at the top of the address
/// space.
pub open spec fn spec_wrap_inc(x: u16) -> u16 {
    if x == 0xFFFF {
        0
    } else {
        (x + 1) as u16
    }
}

/// A 16-bit counter moved back by one, wrapping at the bottom of the address
/// space.
pub open spec fn spec_wrap_dec(x: u16) -> u16 {
    if x == 0 {
        0xFFFF
    } else {
        (x - 1) as u16
    }
}

/// The value a named register holds: the accumulator lives in the
/// arithmetic/logic unit, the six general registers in the register file.
pub open spec fn spec_reg_read(cpu: Cpu, r: Register) -> u8 {
    match r {
        Register::Accum => cpu.alu.accumulator,
        Register::B => cpu.registers.reg_b,
        Register::C => cpu.registers.reg_c,
        Register::D => cpu.registers.reg_d,
        Register::E => cpu.registers.reg_e,
        Register::H => cpu.registers.reg_h,
        Register::L => cpu.registers.reg_l,
    }
}

/// The machine with one named register replaced; nothing else moves.
pub open spec fn spec_reg_write(cpu: Cpu, r: Register, v: u8) -> Cpu {
    match r {
        Register::Accum => Cpu { alu: Alu { accumulator: v, ..cpu.alu }, ..cpu },
        Register::B => Cpu { registers: Registers { reg_b: v, ..cpu.registers }, ..cpu },
        Register::C => Cpu { registers: Registers { reg_c: v, ..cpu.registers }, ..cpu },
        Register::D => Cpu { registers: Registers { reg_d: v, ..cpu.registers }, ..cpu },
        Register::E => Cpu { registers: Registers { reg_e: v, ..cpu.registers }, ..cpu },
        Register::H => Cpu { registers: Registers { reg_h: v, ..cpu.registers }, ..cpu },
        Register::L => Cpu { registers: Registers { reg_l: v, ..cpu.registers }, ..cpu },
    }
}

/// The machine with the program counter replaced.
pub open spec fn spec_with_pc(cpu: Cpu, pc: u16) -> Cpu {
    Cpu { registers: Registers { program_counter: pc, ..cpu.registers }, ..cpu }
}

/// The machine with the stack pointer replaced.
pub open spec fn spec_with_sp(cpu: Cpu, sp: u16) -> Cpu {
    Cpu { registers: Registers { stack_pointer: sp, ..cpu.registers }, ..cpu }
}

/// The machine right after the fetch phase: the opcode latched in the
/// decoder and the program counter advanced by one.
pub open spec fn spec_fetched(cpu: Cpu, opcode: u8) -> Cpu {
    Cpu {
        registers: Registers {
            program_counter: spec_wrap_inc(cpu.registers.program_counter),
            ..cpu.registers
        },
        decoder: InstrDecoder { reg_instruction: opcode },
        alu: cpu.alu,
    }
}

/// The operand and commit phases of one decoded instruction, starting from
/// the post-fetch machine state. `opcode` is the byte the variant was
/// decoded from; its bit fields name the operand registers and flags.
pub open spec fn spec_exec_instr(
    cpu: Cpu,
    instr: InstrType,
    opcode: u8,
    rom: Seq<u8>,
    ram: Seq<u8>,
) -> StepSpec {
    match instr {
        InstrType::HLT => StepSpec { cpu, ram, result: Ok(true) },
        InstrType::MIV => {
            let pc = cpu.registers.program_counter;
            if pc >= rom.len() {
                StepSpec { cpu, ram, result: Err(Fault::OutOfRange) }
            } else {
                match spec_register(spec_low_field(opcode)) {
                    None => StepSpec { cpu, ram, result: Err(Fault::Decode) },
                    Some(dst) => StepSpec {
                        cpu: spec_with_pc(
                            spec_reg_write(cpu, dst, rom[pc as int]),
                            spec_wrap_inc(pc),
                        ),
                        ram,
                        result: Ok(false),
                    },
                }
            }
        },
        InstrType::LSP => StepSpec {
            cpu: spec_with_sp(cpu, spec_hl(cpu.registers)),
            ram,
            result: Ok(false),
        },
        InstrType::LPC => StepSpec {
            cpu: spec_with_pc(cpu, spec_hl(cpu.registers)),
            ram,
            result: Ok(false),
        },
        InstrType::MOV { mem_mov, mem_dir } => if !mem_mov {
            match spec_register(spec_src_field(opcode)) {
                None => StepSpec { cpu, ram, result: Err(Fault::Decode) },
                Some(src) => {
                    let moved = Cpu { alu: Alu { temp: spec_reg_read(cpu, src), ..cpu.alu }, ..cpu };
                    match spec_register(spec_low_field(opcode)) {
                        None => StepSpec { cpu: moved, ram, result: Err(Fault::Decode) },
                        Some(dst) => StepSpec {
                            cpu: spec_reg_write(moved, dst, moved.alu.temp),
                            ram,
                            result: Ok(false),
                        },
                    }
                },
            }
        } else if mem_dir {
            match spec_register(spec_src_field(opcode)) {
                None => StepSpec { cpu, ram, result: Err(Fault::Decode) },
                Some(src) => {
                    let addr = spec_hl(cpu.registers);
                    if addr >= ram.len() {
                        StepSpec { cpu, ram, result: Err(Fault::OutOfRange) }
                    } else {
                        StepSpec {
                            cpu,
                            ram: ram.update(addr as int, spec_reg_read(cpu, src)),
                            result: Ok(false),
                        }
                    }
                },
            }
        } else {
            let addr = spec_hl(cpu.registers);
            if addr >= ram.len() {
                StepSpec { cpu, ram, result: Err(Fault::OutOfRange) }
            } else {
                match spec_register(spec_low_field(opcode)) {
                    None => StepSpec { cpu, ram, result: Err(Fault::Decode) },
                    Some(dst) => StepSpec {
                        cpu: spec_reg_write(cpu, dst, ram[addr as int]),
                        ram,
                        result: Ok(false),
                    },
                }
            }
        },
        InstrType::PUSH { push } => if push {
            match spec_register(spec_src_field(opcode)) {
                None => StepSpec { cpu, ram, result: Err(Fault::Decode) },
                Some(src) => {
                    let sp = cpu.registers.stack_pointer;
                    if sp >= ram.len() {
                        StepSpec { cpu, ram, result: Err(Fault::OutOfRange) }
                    } else {
                        StepSpec {
                            cpu: spec_with_sp(cpu, spec_wrap_dec(sp)),
                            ram: ram.update(sp as int, spec_reg_read(cpu, src)),
                            result: Ok(false),
                        }
                    }
                },
            }
        } else {
            let raised = spec_with_sp(cpu, spec_wrap_inc(cpu.registers.stack_pointer));
            let sp = raised.registers.stack_pointer;
            if sp >= ram.len() {
                StepSpec { cpu: raised, ram, result: Err(Fault::OutOfRange) }
            } else {
                match spec_register(spec_low_field(opcode)) {
                    None => StepSpec { cpu: raised, ram, result: Err(Fault::Decode) },
                    Some(dst) => StepSpec {
                        cpu: spec_reg_write(raised, dst, ram[sp as int]),
                        ram,
                        result: Ok(false),
                    },
                }
            }
        },
        InstrType::JS => {
            let sel = spec_flag_sel(spec_flag_field(opcode));
            if spec_flag_value(cpu.alu.flags, sel) {
                StepSpec { cpu: spec_with_pc(cpu, spec_hl(cpu.registers)), ram, result: Ok(false) }
            } else {
                StepSpec { cpu, ram, result: Ok(false) }
            }
        },
        InstrType::JR => {
            let sel = spec_flag_sel(spec_flag_field(opcode));
            if !spec_flag_value(cpu.alu.flags, sel) {
                StepSpec { cpu: spec_with_pc(cpu, spec_hl(cpu.registers)), ram, result: Ok(false) }
            } else {
                StepSpec { cpu, ram, result: Ok(false) }
            }
        },
        InstrType::ALUOP { cmp, op } => {
            match spec_register(spec_src_field(opcode)) {
                None => StepSpec { cpu, ram, result: Err(Fault::Decode) },
                Some(src) => {
                    let operand = spec_reg_read(cpu, src);
                    let v = spec_intermediate(op, cpu.alu.accumulator, operand, cpu.alu.flags.carry);
                    StepSpec {
                        cpu: Cpu {
                            alu: Alu {
                                accumulator: if cmp {
                                    cpu.alu.accumulator
                                } else {
                                    spec_result_byte(v)
                                },
                                temp: operand,
                                flags: spec_flags_after(v),
                                op: Operation::NOP,
                            },
                            ..cpu
                        },
                        ram,
                        result: Ok(false),
                    }
                },
            }
        },
    }
}

/// One full instruction cycle as a function of the machine state, the
/// program bytes and the data bytes. The fetch reads the opcode at the
/// program counter and advances it; the decoded variant then runs its
/// operand and commit phases. Every fault leaves the data bytes untouched
/// and the machine exactly as the phases before the fault left it.
pub open spec fn spec_step(cpu: Cpu, rom: Seq<u8>, ram: Seq<u8>) -> StepSpec {
    let pc = cpu.registers.program_counter;
    if pc >= rom.len() {
        StepSpec { cpu, ram, result: Err(Fault::OutOfRange) }
    } else {
        let opcode = rom[pc as int];
        let fetched = spec_fetched(cpu, opcode);
        match spec_decode(opcode) {
            Err(f) => StepSpec { cpu: fetched, ram, result: Err(f) },
            Ok(instr) => spec_exec_instr(fetched, instr, opcode, rom, ram),
        }
    }
}

/// A 16-bit counter advanced by one, wrapping at the top of the address
/// space.
fn wrap_inc(x: u16) -> (r: u16)
    ensures
        r == spec_wrap_inc(x),
{
    if x == 0xFFFF {
        0
    } else {
        x + 1
    }
}

/// A 16-bit counter moved back by one, wrapping at the bottom of the address
/// space.
fn wrap_dec(x: u16) -> (r: u16)
    ensures
        r == spec_wrap_dec(x),
{
    if x == 0 {
        0xFFFF
    } else {
        x - 1
    }
}

impl Cpu {
    /// Creates a processor with every register, flag and decoder latch
    /// zeroed and no operation selected.
    pub fn new() -> (c: Cpu)
        ensures
            c.registers == spec_registers_zeroed(),
            c.alu == spec_alu_zeroed(),
            c.decoder.reg_instruction == 0u8,
    {
        Cpu { registers: Registers::new(), decoder: InstrDecoder::new(), alu: Alu::new() }
    }

    /// Zeroes the register file and the arithmetic/logic unit. The decoder's
    /// latch is overwritten by the next fetch and keeps its value.
    pub fn reset(&mut self)
        ensures
            final(self).registers == spec_registers_zeroed(),
            final(self).alu == spec_alu_zeroed(),
            final(self).decoder == old(self).decoder,
    {
        self.registers.reset();
        self.alu.reset();
    }

    /// The value a named register holds.
    fn read_register(&self, r: Register) -> (v: u8)
        ensures
            v == spec_reg_read(*self, r),
    {
        match r {
            Register::Accum => self.alu.accumulator,
            Register::B => self.registers.reg_b,
            Register::C => self.registers.reg_c,
            Register::D => self.registers.reg_d,
            Register::E => self.registers.reg_e,
            Register::H => self.registers.reg_h,
            Register::L => self.registers.reg_l,
        }
    }

    /// Replaces the value of a named register.
    fn write_register(&mut self, r: Register, v: u8)
        ensures
            *final(self) == spec_reg_write(*old(self), r, v),
    {
        match r {
            Register::Accum => self.alu.accumulator = v,
            Register::B => self.registers.reg_b = v,
            Register::C => self.registers.reg_c = v,
            Register::D => self.registers.reg_d = v,
            Register::E => self.registers.reg_e = v,
            Register::H => self.registers.reg_h = v,
            Register::L => self.registers.reg_l = v,
        }
    }

    /// Runs one full instruction cycle: fetches the opcode at the program
    /// counter from program memory, decodes it, and drives the operand and
    /// commit phases over the register file, the arithmetic/logic unit and
    /// data memory. Returns `Ok(true)` on halt, `Ok(false)` when the next
    /// instruction may run, and the fault where the cycle cannot finish.
    /// The outcome agrees with [`spec_step`] exactly.
    pub fn execute(&mut self, rom: &Mem, ram: &mut Mem) -> (r: Result<bool, Fault>)
        ensures
            ({
                let s = spec_step(*old(self), rom@, old(ram)@);
                &&& *final(self) == s.cpu
                &&& final(ram)@ == s.ram
                &&& r == s.result
            }),
    {
        // Fetch phase: read and latch the opcode, advance the program
        // counter, classify.
        let pc: u16 = self.registers.program_counter;
        let opcode: u8 = match rom.read(pc as usize) {
            Ok(b) => b,
            Err(f) => {
                return Err(f);
            },
        };
        self.decoder.load_opcode(opcode);
        self.registers.program_counter = wrap_inc(pc);
        let instr: InstrType = match self.decoder.get_type() {
            Ok(i) => i,
            Err(f) => {
                return Err(f);
            },
        };

        // Operand and commit phases, by variant.
        match instr {
            InstrType::HLT => Ok(true),
            InstrType::MIV => {
                let pc2: u16 = self.registers.program_counter;
                let byte: u8 = match rom.read(pc2 as usize) {
                    Ok(b) => b,
                    Err(f) => {
                        return Err(f);
                    },
                };
                let dst: Register = match self.decoder.get_register(true) {
                    Ok(d) => d,
                    Err(f) => {
                        return Err(f);
                    },
                };
                self.write_register(dst, byte);
                self.registers.program_counter = wrap_inc(pc2);
                Ok(false)
            },
            InstrType::LSP => {
                self.registers.stack_pointer = self.registers.HL();
                Ok(false)
            },
            InstrType::LPC => {
                self.registers.program_counter = self.registers.HL();
                Ok(false)
            },
            InstrType::MOV { mem_mov, mem_dir } => {
                if !mem_mov {
                    let src: Register = match self.decoder.get_register(false) {
                        Ok(s) => s,
                        Err(f) => {
                            return Err(f);
                        },
                    };
                    let moved: u8 = self.read_register(src);
                    self.alu.temp = moved;
                    let dst: Register = match self.decoder.get_register(true) {
                        Ok(d) => d,
                        Err(f) => {
                            return Err(f);
                        },
                    };
                    let val: u8 = self.alu.temp;
                    self.write_register(dst, val);
                    Ok(false)
                } else if mem_dir {
                    let src: Register = match self.decoder.get_register(false) {
                        Ok(s) => s,
                        Err(f) => {
                            return Err(f);
                        },
                    };
                    let val: u8 = self.read_register(src);
                    let addr: u16 = self.registers.HL();
                    match ram.write(addr as usize, val) {
                        Ok(u) => u,
                        Err(f) => {
                            return Err(f);
                        },
                    };
                    Ok(false)
                } else {
                    let addr: u16 = self.registers.HL();
                    let byte: u8 = match ram.read(addr as usize) {
                        Ok(b) => b,
                        Err(f) => {
                            return Err(f);
                        },
                    };
                    let dst: Register = match self.decoder.get_register(true) {
                        Ok(d) => d,
                        Err(f) => {
                            return Err(f);
                        },
                    };
                    self.write_register(dst, byte);
                    Ok(false)
                }
            },
            InstrType::PUSH { push } => {
                if push {
                    let src: Register = match self.decoder.get_register(false) {
                        Ok(s) => s,
                        Err(f) => {
                            return Err(f);
                        },
                    };
                    let val: u8 = self.read_register(src);
                    let sp: u16 = self.registers.stack_pointer;
                    match ram.write(sp as usize, val) {
                        Ok(u) => u,
                        Err(f) => {
                            return Err(f);
                        },
                    };
                    self.registers.stack_pointer = wrap_dec(sp);
                    Ok(false)
                } else {
                    let sp: u16 = wrap_inc(self.registers.stack_pointer);
                    self.registers.stack_pointer = sp;
                    let byte: u8 = match ram.read(sp as usize) {
                        Ok(b) => b,
                        Err(f) => {
                            return Err(f);
                        },
                    };
                    let dst: Register = match self.decoder.get_register(true) {
                        Ok(d) => d,
                        Err(f) => {
                            return Err(f);
                        },
                    };
                    self.write_register(dst, byte);
                    Ok(false)
                }
            },
            InstrType::JS => {
                let sel = self.decoder.get_flag();
                if self.alu.flag_value(sel) {
                    self.registers.program_counter = self.registers.HL();
                }
                Ok(false)
            },
            InstrType::JR => {
                let sel = self.decoder.get_flag();
                if !self.alu.flag_value(sel) {
                    self.registers.program_counter = self.registers.HL();
                }
                Ok(false)
            },
            InstrType::ALUOP { cmp, op } => {
                let src: Register = match self.decoder.get_register(false) {
                    Ok(s) => s,
                    Err(f) => {
                        return Err(f);
                    },
                };
                let operand: u8 = self.read_register(src);
                self.alu.temp = operand;
                self.alu.set_op(op);
                let result: u8 = self.alu.calculate();
                if !cmp {
                    self.alu.accumulator = result;
                }
                self.alu.set_op(Operation::NOP);
                Ok(false)
            },
        }
    }
}

} // verus!
