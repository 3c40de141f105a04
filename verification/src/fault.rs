//! The fault type shared by every component of the machine.

use vstd::prelude::*;

verus! {

/// A fatal condition raised while executing an instruction. The host decides
/// whether to abort the run; nothing inside the machine is retried.
#[derive(Clone, Copy, Debug, PartialEq, Eq, Structural)]
pub enum Fault {
    /// A memory access at an address at or beyond the memory's capacity.
    OutOfRange,
    /// An opcode that matches no known bit-pattern range, or a register or
    /// flag field that encodes an out-of-range value.
    Decode,
    /// The operand and commit phases classified one instruction differently.
    /// Decoding is a pure function of the opcode byte, so no input produces
    /// this fault; it is kept distinct so a host can tell it apart.
    Consistency,
}

} // verus!
