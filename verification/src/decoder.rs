//! The instruction decoder: classifies a raw opcode byte into an instruction
//! variant and extracts register and flag operand fields from bit positions.
//!
//! The opcode table is the binary wire contract of the machine:
//!
//! - `0x00`–`0x06`: immediate load into the register named by the low field
//! - `0x07`, `0x0F`, `0x17`, `0x1F`, `0x27`, `0x2F`, `0x37`: stack push
//! - `0x38`–`0x3E`: stack pop
//! - `0x3F`: load the stack pointer from the composite pointer
//! - `0x24`: load the program counter from the composite pointer
//! - `0x40`–`0x76` with low field below 7: register-to-register move
//! - `0x47`, `0x4F`, `0x57`, `0x5F`, `0x67`, `0x6F`, `0x77`: store to memory
//! - `0x78`–`0x7E`: load from memory
//! - `0xCC`, `0xDC`, `0xEC`, `0xFC`: jump if the selected flag is set
//! - `0xC4`, `0xD4`, `0xE4`, `0xF4`: jump if the selected flag is reset
//! - `0xFF`: halt
//! - top two bits `10`: arithmetic class, committed to the accumulator
//! - top two bits `11`, low field not 4: compare class, result discarded
//! - anything else: a decode fault

use vstd::prelude::*;

use crate::alu::Flag;
use crate::alu::Operation;
use crate::fault::Fault;

verus! {

/// A named general-purpose register, or the accumulator. Seven codes map to
/// these; field values above 6 are a decode fault.
#[derive(Clone, Copy, Debug, PartialEq, Eq, Structural)]
pub enum Register {
    Accum,
    B,
    C,
    D,
    E,
    H,
    L,
}

/// The instruction variant an opcode byte classifies into. A variant is
/// recomputed from the raw opcode on each phase that needs it and never
/// persists across instructions.
#[derive(Clone, Copy, Debug, PartialEq, Eq, Structural)]
pub enum InstrType {
    /// A move: register-to-register when `mem_mov` is clear, a store to data
    /// memory when `mem_dir` is also set, a load from data memory otherwise.
    MOV { mem_mov: bool, mem_dir: bool },
    /// An immediate load: the byte after the opcode goes into the register
    /// named by the low field.
    MIV,
    /// Load the stack pointer from the composite pointer.
    LSP,
    /// A stack push when `push` is set, a stack pop otherwise.
    PUSH { push: bool },
    /// Load the program counter from the composite pointer.
    LPC,
    /// Jump to the composite pointer if the selected flag is set.
    JS,
    /// Jump to the composite pointer if the selected flag is reset.
    JR,
    /// An arithmetic/logic instruction carrying its operation. The compare
    /// class discards the numeric result and keeps only the flags.
    ALUOP { cmp: bool, op: Operation },
    /// Halt: the terminal instruction.
    HLT,
}

/// The 3-bit register field at bit positions 2 to 0, used for destinations
/// and for operation selection.
pub open spec fn spec_low_field(opcode: u8) -> u8 {
    opcode & 7
}

/// The 3-bit register field at bit positions 5 to 3, used for sources.
pub open spec fn spec_src_field(opcode: u8) -> u8 {
    (opcode >> 3) & 7
}

/// The 2-bit flag field at bit positions 5 to 4.
pub open spec fn spec_flag_field(opcode: u8) -> u8 {
    (opcode >> 4) & 3
}

/// The register a 3-bit field code names; codes above 6 name none and are a
/// decode fault.
pub open spec fn spec_register(code: u8) -> Option<Register> {
    if code == 0 {
        Some(Register::Accum)
    } else if code == 1 {
        Some(Register::B)
    } else if code == 2 {
        Some(Register::C)
    } else if code == 3 {
        Some(Register::D)
    } else if code == 4 {
        Some(Register::E)
    } else if code == 5 {
        Some(Register::H)
    } else if code == 6 {
        Some(Register::L)
    } else {
        None
    }
}

/// The flag a 2-bit field code selects.
pub open spec fn spec_flag_sel(code: u8) -> Flag {
    if code == 0 {
        Flag::Zero
    } else if code == 1 {
        Flag::Sign
    } else if code == 2 {
        Flag::Parity
    } else {
        Flag::Carry
    }
}

/// The operation the low field selects for the arithmetic class; codes 5 and
/// 6 select none and are a decode fault.
pub open spec fn spec_arith_op(code: u8) -> Option<Operation> {
    if code == 0 {
        Some(Operation::ADD)
    } else if code == 1 {
        Some(Operation::ADDC)
    } else if code == 2 {
        Some(Operation::SUB)
    } else if code == 3 {
        Some(Operation::SUBB)
    } else if code == 4 {
        Some(Operation::SUB)
    } else {
        None
    }
}

/// The operation the low field selects for the compare class; codes 4 and
/// above select none and are a decode fault.
pub open spec fn spec_logic_op(code: u8) -> Option<Operation> {
    if code == 0 {
        Some(Operation::AND)
    } else if code == 1 {
        Some(Operation::OR)
    } else if code == 2 {
        Some(Operation::XOR)
    } else if code == 3 {
        Some(Operation::NOT)
    } else {
        None
    }
}

/// The classification of one opcode byte: the instruction variant, or the
/// decode fault where the byte matches no row of the opcode table or its
/// operation field is out of range.
pub open spec fn spec_decode(opcode: u8) -> Result<InstrType, Fault> {
    if opcode == 0xFF {
        Ok(InstrType::HLT)
    } else if opcode == 0x3F {
        Ok(InstrType::LSP)
    } else if opcode == 0x24 {
        Ok(InstrType::LPC)
    } else if opcode <= 0x06 {
        Ok(InstrType::MIV)
    } else if 0x40 <= opcode && opcode <= 0x76 && spec_low_field(opcode) != 7 {
        Ok(InstrType::MOV { mem_mov: false, mem_dir: false })
    } else if 0x40 <= opcode && opcode <= 0x77 && spec_low_field(opcode) == 7 {
        Ok(InstrType::MOV { mem_mov: true, mem_dir: true })
    } else if 0x78 <= opcode && opcode <= 0x7E {
        Ok(InstrType::MOV { mem_mov: true, mem_dir: false })
    } else if opcode <= 0x37 && spec_low_field(opcode) == 7 {
        Ok(InstrType::PUSH { push: true })
    } else if 0x38 <= opcode && opcode <= 0x3E {
        Ok(InstrType::PUSH { push: false })
    } else if opcode == 0xCC || opcode == 0xDC || opcode == 0xEC || opcode == 0xFC {
        Ok(InstrType::JS)
    } else if opcode == 0xC4 || opcode == 0xD4 || opcode == 0xE4 || opcode == 0xF4 {
        Ok(InstrType::JR)
    } else if 0x80 <= opcode && opcode <= 0xBF {
        match spec_arith_op(spec_low_field(opcode)) {
            Some(op) => Ok(InstrType::ALUOP { cmp: false, op }),
            None => Err(Fault::Decode),
        }
    } else if 0xC0 <= opcode {
        match spec_logic_op(spec_low_field(opcode)) {
            Some(op) => Ok(InstrType::ALUOP { cmp: true, op }),
            None => Err(Fault::Decode),
        }
    } else {
        Err(Fault::Decode)
    }
}

/// The decoder's one register: the opcode byte under classification.
#[derive(Clone, Copy, Debug, PartialEq, Eq, Structural)]
pub struct InstrDecoder {
    pub reg_instruction: u8,
}

impl InstrDecoder {
    /// Creates a decoder holding the zero opcode.
    pub fn new() -> (d: InstrDecoder)
        ensures
            d.reg_instruction == 0u8,
    {
        InstrDecoder { reg_instruction: 0 }
    }

    /// Latches a raw opcode byte for classification.
    pub fn load_opcode(&mut self, opcode: u8)
        ensures
            final(self).reg_instruction == opcode,
    {
        self.reg_instruction = opcode;
    }

    /// Classifies the latched opcode. Classification is a pure function of
    /// the byte; configuring the arithmetic/logic unit from the returned
    /// variant is the engine's decision.
    pub fn get_type(&self) -> (r: Result<InstrType, Fault>)
        ensures
            r == spec_decode(self.reg_instruction),
    {
        let opcode: u8 = self.reg_instruction;
        if opcode == 0xFF {
            Ok(InstrType::HLT)
        } else if opcode == 0x3F {
            Ok(InstrType::LSP)
        } else if opcode == 0x24 {
            Ok(InstrType::LPC)
        } else if opcode <= 0x06 {
            Ok(InstrType::MIV)
        } else if 0x40 <= opcode && opcode <= 0x76 && opcode & 7 != 7 {
            Ok(InstrType::MOV { mem_mov: false, mem_dir: false })
        } else if 0x40 <= opcode && opcode <= 0x77 && opcode & 7 == 7 {
            Ok(InstrType::MOV { mem_mov: true, mem_dir: true })
        } else if 0x78 <= opcode && opcode <= 0x7E {
            Ok(InstrType::MOV { mem_mov: true, mem_dir: false })
        } else if opcode <= 0x37 && opcode & 7 == 7 {
            Ok(InstrType::PUSH { push: true })
        } else if 0x38 <= opcode && opcode <= 0x3E {
            Ok(InstrType::PUSH { push: false })
        } else if opcode == 0xCC || opcode == 0xDC || opcode == 0xEC || opcode == 0xFC {
            Ok(InstrType::JS)
        } else if opcode == 0xC4 || opcode == 0xD4 || opcode == 0xE4 || opcode == 0xF4 {
            Ok(InstrType::JR)
        } else if 0x80 <= opcode && opcode <= 0xBF {
            let code: u8 = opcode & 7;
            if code == 0 {
                Ok(InstrType::ALUOP { cmp: false, op: Operation::ADD })
            } else if code == 1 {
                Ok(InstrType::ALUOP { cmp: false, op: Operation::ADDC })
            } else if code == 2 {
                Ok(InstrType::ALUOP { cmp: false, op: Operation::SUB })
            } else if code == 3 {
                Ok(InstrType::ALUOP { cmp: false, op: Operation::SUBB })
            } else if code == 4 {
                Ok(InstrType::ALUOP { cmp: false, op: Operation::SUB })
            } else {
                Err(Fault::Decode)
            }
        } else if 0xC0 <= opcode {
            let code: u8 = opcode & 7;
            if code == 0 {
                Ok(InstrType::ALUOP { cmp: true, op: Operation::AND })
            } else if code == 1 {
                Ok(InstrType::ALUOP { cmp: true, op: Operation::OR })
            } else if code == 2 {
                Ok(InstrType::ALUOP { cmp: true, op: Operation::XOR })
            } else if code == 3 {
                Ok(InstrType::ALUOP { cmp: true, op: Operation::NOT })
            } else {
                Err(Fault::Decode)
            }
        } else {
            Err(Fault::Decode)
        }
    }

    /// Extracts a register field from the latched opcode: the low field when
    /// `ctrl` is set (destinations and operation selection), the source
    /// field otherwise. A field code above 6 is a decode fault.
    pub fn get_register(&self, ctrl: bool) -> (r: Result<Register, Fault>)
        ensures
            ({
                let code = if ctrl {
                    spec_low_field(self.reg_instruction)
                } else {
                    spec_src_field(self.reg_instruction)
                };
                match spec_register(code) {
                    Some(reg) => r == Ok::<Register, Fault>(reg),
                    None => r == Err::<Register, Fault>(Fault::Decode),
                }
            }),
    {
        let code: u8 = if ctrl {
            self.reg_instruction & 7
        } else {
            (self.reg_instruction >> 3) & 7
        };
        if code == 0 {
            Ok(Register::Accum)
        } else if code == 1 {
            Ok(Register::B)
        } else if code == 2 {
            Ok(Register::C)
        } else if code == 3 {
            Ok(Register::D)
        } else if code == 4 {
            Ok(Register::E)
        } else if code == 5 {
            Ok(Register::H)
        } else if code == 6 {
            Ok(Register::L)
        } else {
            Err(Fault::Decode)
        }
    }

    /// Extracts the flag selector from the latched opcode. The field is two
    /// bits wide, so every value selects a flag.
    pub fn get_flag(&self) -> (r: Flag)
        ensures
            r == spec_flag_sel(spec_flag_field(self.reg_instruction)),
    {
        let code: u8 = (self.reg_instruction >> 4) & 3;
        if code == 0 {
            Flag::Zero
        } else if code == 1 {
            Flag::Sign
        } else if code == 2 {
            Flag::Parity
        } else {
            Flag::Carry
        }
    }
}

} // verus!
