//! The arithmetic/logic unit: accumulator, scratch operand, condition flags
//! and the currently selected operation.

use vstd::prelude::*;

verus! {

/// An arithmetic or logic operation the unit can perform. `NOP` is the
/// resting value: an operation is selected just before a result is committed
/// and the unit returns to `NOP` afterwards.
#[derive(Clone, Copy, Debug, PartialEq, Eq, Structural)]
pub enum Operation {
    ADD,
    ADDC,
    SUB,
    SUBB,
    AND,
    OR,
    XOR,
    NOT,
    NOP,
}

/// The four condition flags. They are recomputed only when an
/// arithmetic/logic result is committed and are left untouched by
/// data-movement and stack instructions.
#[derive(Clone, Copy, Debug, PartialEq, Eq, Structural)]
pub struct Flags {
    pub zero: bool,
    pub carry: bool,
    pub sign: bool,
    pub parity: bool,
}

/// The arithmetic/logic unit.
#[derive(Clone, Copy, Debug, PartialEq, Eq, Structural)]
pub struct Alu {
    pub accumulator: u8,
    pub temp: u8,
    pub flags: Flags,
    pub op: Operation,
}

/// The signed 16-bit-wide intermediate value an operation produces from the
/// accumulator, the scratch operand and the carry flag, before truncation to
/// a byte. `NOP` never reaches a calculation; its value here is immaterial.
pub open spec fn spec_intermediate(op: Operation, acc: u8, temp: u8, carry: bool) -> int {
    match op {
        Operation::ADD => acc + temp,
        Operation::ADDC => acc + temp + (if carry { 1int } else { 0int }),
        Operation::SUB => acc - temp,
        Operation::SUBB => acc - temp - (if carry { 1int } else { 0int }),
        Operation::AND => (acc & temp) as int,
        Operation::OR => (acc | temp) as int,
        Operation::XOR => (acc ^ temp) as int,
        Operation::NOT => (!temp) as int,
        Operation::NOP => 0,
    }
}

/// The intermediate value truncated to the 8-bit domain. Every operation
/// keeps the intermediate within one wrap of that domain, so one adjustment
/// by 256 suffices.
pub open spec fn spec_result_byte(v: int) -> u8
    recommends
        -256 <= v <= 511,
{
    if v < 0 {
        (v + 256) as u8
    } else if v > 255 {
        (v - 256) as u8
    } else {
        v as u8
    }
}

/// The flags an intermediate value commits: zero when the intermediate is
/// exactly zero, parity when it is even, sign when bit 7 of the truncated
/// result is set, and carry when the intermediate leaves the 8-bit domain in
/// either direction.
pub open spec fn spec_flags_after(v: int) -> Flags {
    Flags {
        zero: v == 0,
        carry: v < 0 || v > 255,
        sign: spec_result_byte(v) >= 128,
        parity: v % 2 == 0,
    }
}

/// An arithmetic/logic unit with zeroed state and no selected operation.
pub open spec fn spec_alu_zeroed() -> Alu {
    Alu {
        accumulator: 0,
        temp: 0,
        flags: Flags { zero: false, carry: false, sign: false, parity: false },
        op: Operation::NOP,
    }
}

impl Alu {
    /// Creates a unit with zeroed accumulator, operand and flags, and no
    /// selected operation.
    pub fn new() -> (a: Alu)
        ensures
            a == spec_alu_zeroed(),
    {
        Alu {
            accumulator: 0,
            temp: 0,
            flags: Flags { zero: false, carry: false, sign: false, parity: false },
            op: Operation::NOP,
        }
    }

    /// Zeroes the accumulator, the operand and the flags, and deselects the
    /// operation.
    pub fn reset(&mut self)
        ensures
            *final(self) == spec_alu_zeroed(),
    {
        self.accumulator = 0;
        self.temp = 0;
        self.flags.zero = false;
        self.flags.carry = false;
        self.flags.sign = false;
        self.flags.parity = false;
        self.op = Operation::NOP;
    }

    /// Records the pending operation; nothing else changes.
    pub fn set_op(&mut self, op: Operation)
        ensures
            *final(self) == (Alu { op, ..*old(self) }),
    {
        self.op = op;
    }

    /// The value of the selected flag.
    pub fn flag_value(&self, sel: Flag) -> (b: bool)
        ensures
            b == spec_flag_value(self.flags, sel),
    {
        match sel {
            Flag::Zero => self.flags.zero,
            Flag::Sign => self.flags.sign,
            Flag::Parity => self.flags.parity,
            Flag::Carry => self.flags.carry,
        }
    }

    /// Computes the pending operation over the accumulator and the scratch
    /// operand, commits the four flags of the intermediate value, and
    /// returns the truncated 8-bit result. The accumulator itself is not
    /// written; committing the result is the engine's decision.
    pub fn calculate(&mut self) -> (r: u8)
        requires
            old(self).op != Operation::NOP,
        ensures
            ({
                let v = spec_intermediate(
                    old(self).op,
                    old(self).accumulator,
                    old(self).temp,
                    old(self).flags.carry,
                );
                &&& r == spec_result_byte(v)
                &&& final(self).accumulator == old(self).accumulator
                &&& final(self).temp == old(self).temp
                &&& final(self).op == old(self).op
                &&& final(self).flags == spec_flags_after(v)
            }),
    {
        let acc: i16 = self.accumulator as i16;
        let tmp: i16 = self.temp as i16;
        let val: i16 = match self.op {
            Operation::ADD => acc + tmp,
            Operation::ADDC => acc + tmp + (if self.flags.carry { 1 } else { 0 }),
            Operation::SUB => acc - tmp,
            Operation::SUBB => acc - tmp - (if self.flags.carry { 1 } else { 0 }),
            Operation::AND => (self.accumulator & self.temp) as i16,
            Operation::OR => (self.accumulator | self.temp) as i16,
            Operation::XOR => (self.accumulator ^ self.temp) as i16,
            Operation::NOT => (!self.temp) as i16,
            Operation::NOP => unreached(),
        };
        let result: u8 = if val < 0 {
            (val + 256) as u8
        } else if val > 255 {
            (val - 256) as u8
        } else {
            val as u8
        };
        proof {
            assert((val + 256) % 2 == val % 2 && (val - 256) % 2 == val % 2) by {
                vstd::arithmetic::div_mod::lemma_mod_multiples_vanish(128, val as int, 2);
                vstd::arithmetic::div_mod::lemma_mod_multiples_vanish(-128, val as int, 2);
            }
        }
        self.flags.zero = val == 0;
        self.flags.carry = val < 0 || val > 255;
        self.flags.sign = result >= 128;
        self.flags.parity = result % 2 == 0;
        result
    }
}

/// A selector naming one of the four condition flags.
#[derive(Clone, Copy, Debug, PartialEq, Eq, Structural)]
pub enum Flag {
    Zero,
    Sign,
    Parity,
    Carry,
}

/// The value of the selected flag.
pub open spec fn spec_flag_value(f: Flags, sel: Flag) -> bool {
    match sel {
        Flag::Zero => f.zero,
        Flag::Sign => f.sign,
        Flag::Parity => f.parity,
        Flag::Carry => f.carry,
    }
}

} // verus!
