//! The addressing-mode resolver: from the operand bytes of an instruction
//! to the value or the effective address that the operation works on.

use vstd::prelude::*;
use crate::cpu::CPU;
use crate::memory::{
    advance, advanced, displace, displaced, next_in_page, peek, peek_word, step_in_page,
    zero_page_add, zero_page_address, zero_page_sum, Memory,
};
use crate::opcode::AddressingMode;

verus! {

/// What an addressing mode resolves to.
#[derive(Clone, Copy, Debug, PartialEq, Eq, Structural)]
pub enum Operand {
    /// The instruction has no operand.
    Implied,
    /// The operand is the accumulator.
    Accumulator,
    /// The operand is this value.
    Immediate(u8),
    /// The operand is the byte at this effective address, or the address
    /// itself where the instruction jumps.
    Address(u16),
}

/// The address in page 0 that a one-byte operand names.
pub open spec fn in_zero_page(offset: u8) -> u16 {
    offset as u16
}

/// The word that page 0 holds at `pointer`: its high byte comes from the
/// next offset of page 0, which after 0xFF is 0x00.
pub open spec fn zero_page_word(memory: Seq<u8>, pointer: u8) -> Option<u16> {
    peek_word(memory, in_zero_page(pointer), in_zero_page(zero_page_sum(pointer, 1)))
}

/// The address held in one place, or none.
pub open spec fn at_address(place: Option<u16>) -> Option<Operand> {
    match place {
        Some(address) => Some(Operand::Address(address)),
        None => None,
    }
}

/// The operand of an instruction with addressing mode `mode` whose operand
/// bytes start at the program counter of `cpu`. `None` where a byte that
/// the mode reads is not served.
pub open spec fn operand_of(cpu: CPU, memory: Seq<u8>, mode: AddressingMode) -> Option<Operand> {
    let at = cpu.program_counter;
    let byte = peek(memory, at);
    let pair = peek_word(memory, at, advanced(at, 1));
    match mode {
        AddressingMode::Implied => Some(Operand::Implied),
        AddressingMode::Accumulator => Some(Operand::Accumulator),
        AddressingMode::Immediate => match byte {
            Some(value) => Some(Operand::Immediate(value)),
            None => None,
        },
        AddressingMode::ZeroPage => match byte {
            Some(offset) => Some(Operand::Address(in_zero_page(offset))),
            None => None,
        },
        AddressingMode::ZeroPageX => match byte {
            Some(offset) => Some(
                Operand::Address(in_zero_page(zero_page_sum(offset, cpu.register_x))),
            ),
            None => None,
        },
        AddressingMode::ZeroPageY => match byte {
            Some(offset) => Some(
                Operand::Address(in_zero_page(zero_page_sum(offset, cpu.register_y))),
            ),
            None => None,
        },
        AddressingMode::Absolute => at_address(pair),
        AddressingMode::AbsoluteX => match pair {
            Some(base) => Some(Operand::Address(advanced(base, cpu.register_x))),
            None => None,
        },
        AddressingMode::AbsoluteY => match pair {
            Some(base) => Some(Operand::Address(advanced(base, cpu.register_y))),
            None => None,
        },
        AddressingMode::IndirectX => match byte {
            Some(offset) => at_address(
                zero_page_word(memory, zero_page_sum(offset, cpu.register_x)),
            ),
            None => None,
        },
        AddressingMode::IndirectY => match byte {
            Some(pointer) => match zero_page_word(memory, pointer) {
                Some(base) => Some(Operand::Address(advanced(base, cpu.register_y))),
                None => None,
            },
            None => None,
        },
        AddressingMode::Indirect => match pair {
            Some(pointer) => at_address(peek_word(memory, pointer, next_in_page(pointer))),
            None => None,
        },
        AddressingMode::Relative => match byte {
            Some(offset) => Some(Operand::Address(displaced(advanced(at, 1), offset))),
            None => None,
        },
    }
}

/// Reads the word that page 0 holds at `pointer`.
fn read_zero_page_word(memory: &Memory, pointer: u8) -> (value: Option<u16>)
    ensures
        value == zero_page_word(memory@, pointer),
{
    memory.read_word(zero_page_address(pointer), zero_page_address(zero_page_add(pointer, 1)))
}

/// Wraps an address that was read, if it was.
fn address_operand(place: Option<u16>) -> (operand: Option<Operand>)
    ensures
        operand == at_address(place),
{
    match place {
        Some(address) => Some(Operand::Address(address)),
        None => None,
    }
}

impl CPU {
    /// This state with the program counter moved past `count` bytes.
    pub open spec fn past(self, count: u8) -> CPU {
        CPU { program_counter: advanced(self.program_counter, count), ..self }
    }

    /// Resolves the operand of an instruction whose operand bytes start at
    /// the program counter, and moves the program counter past them. Where
    /// the memory refuses a byte that the mode reads, the result is `None`
    /// and the program counter stays.
    pub fn resolve(&mut self, memory: &Memory, mode: AddressingMode) -> (operand: Option<Operand>)
        ensures
            operand == operand_of(*old(self), memory@, mode),
            operand.is_some() ==> *final(self) == old(self).past(mode.operand_bytes()),
            operand.is_none() ==> *final(self) == *old(self),
    {
        let at: u16 = self.program_counter;
        let operand = match mode {
            AddressingMode::Implied => Some(Operand::Implied),
            AddressingMode::Accumulator => Some(Operand::Accumulator),
            AddressingMode::Immediate => match memory.read_byte(at) {
                Some(value) => Some(Operand::Immediate(value)),
                None => None,
            },
            AddressingMode::ZeroPage => match memory.read_byte(at) {
                Some(offset) => Some(Operand::Address(zero_page_address(offset))),
                None => None,
            },
            AddressingMode::ZeroPageX => match memory.read_byte(at) {
                Some(offset) => Some(
                    Operand::Address(zero_page_address(zero_page_add(offset, self.register_x))),
                ),
                None => None,
            },
            AddressingMode::ZeroPageY => match memory.read_byte(at) {
                Some(offset) => Some(
                    Operand::Address(zero_page_address(zero_page_add(offset, self.register_y))),
                ),
                None => None,
            },
            AddressingMode::Absolute => address_operand(memory.read_word(at, advance(at, 1))),
            AddressingMode::AbsoluteX => match memory.read_word(at, advance(at, 1)) {
                Some(base) => Some(Operand::Address(advance(base, self.register_x))),
                None => None,
            },
            AddressingMode::AbsoluteY => match memory.read_word(at, advance(at, 1)) {
                Some(base) => Some(Operand::Address(advance(base, self.register_y))),
                None => None,
            },
            AddressingMode::IndirectX => match memory.read_byte(at) {
                Some(offset) => address_operand(
                    read_zero_page_word(memory, zero_page_add(offset, self.register_x)),
                ),
                None => None,
            },
            AddressingMode::IndirectY => match memory.read_byte(at) {
                Some(pointer) => match read_zero_page_word(memory, pointer) {
                    Some(base) => Some(Operand::Address(advance(base, self.register_y))),
                    None => None,
                },
                None => None,
            },
            AddressingMode::Indirect => match memory.read_word(at, advance(at, 1)) {
                Some(pointer) => address_operand(memory.read_word(pointer, step_in_page(pointer))),
                None => None,
            },
            AddressingMode::Relative => match memory.read_byte(at) {
                Some(offset) => Some(Operand::Address(displace(advance(at, 1), offset))),
                None => None,
            },
        };
        if operand.is_some() {
            self.program_counter = advance(at, mode.operand_length());
        }
        operand
    }
}

} // verus!
