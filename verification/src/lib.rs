//! A functional model of the 6502 instruction set: registers and status
//! flags, a byte-addressable memory, addressing-mode resolution, and the
//! fetch-decode-execute cycle, each with a contract over a mathematical
//! model of the machine.

pub mod addressing;
pub mod cpu;
pub mod execute;
pub mod fault;
pub mod flags;
pub mod laws;
pub mod machine;
pub mod memory;
pub mod opcode;
pub mod stack;

pub use addressing::Operand;
pub use cpu::CPU;
pub use fault::{Fault, Status};
pub use memory::Memory;
pub use opcode::{decode, AddressingMode, Instruction, Kind, Operation};
pub use flags::{
    assign_flag, test_flag, zero_negative, BREAK, CARRY, DECIMAL, INTERRUPT_DISABLE, NEGATIVE,
    OVERFLOW, UNUSED, ZERO,
};
