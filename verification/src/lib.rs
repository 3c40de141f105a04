//! An emulator for a minimal 8-bit instruction-set architecture.
//!
//! The machine owns six general-purpose 8-bit registers, a 16-bit stack
//! pointer and program counter, an arithmetic/logic unit with four condition
//! flags, and two independent fixed-capacity byte memories: a read-only
//! program memory and a read-write data memory. One call to
//! [`cpu::Cpu::execute`] runs a full fetch/decode/execute cycle for a single
//! instruction; every failure mode surfaces as a [`fault::Fault`] value
//! rather than ending the host process.

pub mod alu;
pub mod cpu;
pub mod decoder;
pub mod fault;
pub mod laws;
pub mod mem;
pub mod registers;
