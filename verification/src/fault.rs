//! How a step ends: the machine goes on, halts, or faults.

use vstd::prelude::*;

verus! {

/// The state of the execution loop after a step that did not fault.
#[derive(Clone, Copy, Debug, PartialEq, Eq, Structural)]
pub enum Status {
    /// The next instruction can be fetched.
    Running,
    /// The terminator was executed.
    Halted,
}

/// A fatal condition. The run cannot go on past it.
#[derive(Clone, Copy, Debug, PartialEq, Eq, Structural)]
pub enum Fault {
    /// The byte `opcode`, fetched at `program_counter`, is no instruction.
    Decode { opcode: u8, program_counter: u16 },
    /// The instruction that starts at `program_counter` needed a byte that
    /// the memory does not serve.
    Addressing { program_counter: u16 },
}

} // verus!
