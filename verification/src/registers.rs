//! The register file: six general-purpose 8-bit registers, a 16-bit stack
//! pointer and a 16-bit program counter.

use vstd::prelude::*;

verus! {

/// The general-purpose registers B, C, D, E, H and L, the stack pointer and
/// the program counter. The composite 16-bit pointer is always derived from
/// H and L, never stored on its own.
#[derive(Clone, Copy, Debug, PartialEq, Eq, Structural)]
pub struct Registers {
    pub reg_b: u8,
    pub reg_c: u8,
    pub reg_d: u8,
    pub reg_e: u8,
    pub reg_h: u8,
    pub reg_l: u8,
    pub stack_pointer: u16,
    pub program_counter: u16,
}

/// The composite 16-bit pointer formed from the H and L registers: H gives
/// the high byte and L the low byte.
pub open spec fn spec_hl(r: Registers) -> u16 {
    (r.reg_h * 256 + r.reg_l) as u16
}

/// A register file with every register zeroed.
pub open spec fn spec_registers_zeroed() -> Registers {
    Registers {
        reg_b: 0,
        reg_c: 0,
        reg_d: 0,
        reg_e: 0,
        reg_h: 0,
        reg_l: 0,
        stack_pointer: 0,
        program_counter: 0,
    }
}

impl Registers {
    /// Creates a register file with every register zeroed.
    pub fn new() -> (r: Registers)
        ensures
            r == spec_registers_zeroed(),
    {
        Registers {
            reg_b: 0,
            reg_c: 0,
            reg_d: 0,
            reg_e: 0,
            reg_h: 0,
            reg_l: 0,
            stack_pointer: 0,
            program_counter: 0,
        }
    }

    /// Zeroes every register in place.
    pub fn reset(&mut self)
        ensures
            *final(self) == spec_registers_zeroed(),
    {
        self.reg_b = 0;
        self.reg_c = 0;
        self.reg_d = 0;
        self.reg_e = 0;
        self.reg_h = 0;
        self.reg_l = 0;
        self.stack_pointer = 0;
        self.program_counter = 0;
    }

    /// The composite 16-bit pointer derived from H and L.
    #[allow(non_snake_case)]
    pub fn HL(&self) -> (r: u16)
        ensures
            r == spec_hl(*self),
    {
        (self.reg_h as u16) * 256 + (self.reg_l as u16)
    }
}

} // verus!
