//! The opcode table: which operation and which addressing mode each byte
//! of the instruction stream stands for.

use vstd::prelude::*;

verus! {

/// What an instruction does.
#[derive(Clone, Copy, Debug, PartialEq, Eq, Structural)]
pub enum Operation {
    /// Load the accumulator.
    Lda,
    /// Load X.
    Ldx,
    /// Load Y.
    Ldy,
    /// Store the accumulator.
    Sta,
    /// Store X.
    Stx,
    /// Store Y.
    Sty,
    /// Copy the accumulator to X.
    Tax,
    /// Copy the accumulator to Y.
    Tay,
    /// Copy X to the accumulator.
    Txa,
    /// Copy Y to the accumulator.
    Tya,
    /// Copy the stack pointer to X.
    Tsx,
    /// Copy X to the stack pointer.
    Txs,
    /// Push the accumulator.
    Pha,
    /// Pull the accumulator.
    Pla,
    /// Push the status byte.
    Php,
    /// Pull the status byte.
    Plp,
    /// Add with carry.
    Adc,
    /// Subtract with borrow.
    Sbc,
    /// Increment X.
    Inx,
    /// Increment Y.
    Iny,
    /// Decrement X.
    Dex,
    /// Decrement Y.
    Dey,
    /// Increment a byte of memory.
    Inc,
    /// Decrement a byte of memory.
    Dec,
    /// Shift left.
    Asl,
    /// Shift right.
    Lsr,
    /// Rotate left through Carry.
    Rol,
    /// Rotate right through Carry.
    Ror,
    /// Jump.
    Jmp,
    /// Jump to a subroutine.
    Jsr,
    /// Return from a subroutine.
    Rts,
    /// Branch if Carry is clear.
    Bcc,
    /// Branch if Carry is set.
    Bcs,
    /// Branch if Zero is set.
    Beq,
    /// Branch if Zero is clear.
    Bne,
    /// Branch if Negative is set.
    Bmi,
    /// Branch if Negative is clear.
    Bpl,
    /// Branch if Overflow is clear.
    Bvc,
    /// Branch if Overflow is set.
    Bvs,
    /// Clear Carry.
    Clc,
    /// Clear Decimal.
    Cld,
    /// Clear Interrupt-disable.
    Cli,
    /// Clear Overflow.
    Clv,
    /// Set Carry.
    Sec,
    /// Set Decimal.
    Sed,
    /// Set Interrupt-disable.
    Sei,
    /// Bitwise and.
    And,
    /// Bitwise exclusive or.
    Eor,
    /// Bitwise or.
    Ora,
    /// Compare the accumulator.
    Cmp,
    /// Compare X.
    Cpx,
    /// Compare Y.
    Cpy,
    /// Bit test.
    Bit,
    /// Stop the run.
    Halt,
    /// Do nothing.
    Nop,
}

/// How an instruction finds its operand.
#[derive(Clone, Copy, Debug, PartialEq, Eq, Structural)]
pub enum AddressingMode {
    /// No operand.
    Implied,
    /// The accumulator is the operand.
    Accumulator,
    /// The operand is the byte after the opcode.
    Immediate,
    /// The byte after the opcode is an address in page 0.
    ZeroPage,
    /// A page-0 address plus X, wrapping within page 0.
    ZeroPageX,
    /// A page-0 address plus Y, wrapping within page 0.
    ZeroPageY,
    /// The two bytes after the opcode are a little-endian address.
    Absolute,
    /// A 16-bit address plus X.
    AbsoluteX,
    /// A 16-bit address plus Y.
    AbsoluteY,
    /// The address is read from page 0 at the operand byte plus X.
    IndirectX,
    /// The address is read from page 0 at the operand byte, then Y is added.
    IndirectY,
    /// The address is read from the 16-bit pointer after the opcode.
    Indirect,
    /// A signed offset from the address of the next instruction.
    Relative,
}

/// A decoded opcode.
#[derive(Clone, Copy, Debug, PartialEq, Eq, Structural)]
pub struct Instruction {
    pub operation: Operation,
    pub mode: AddressingMode,
}

/// The operation that `opcode` stands for, if it stands for one.
pub open spec fn operation_at(opcode: u8) -> Option<Operation> {
    match opcode {
        0xA9 | 0xA5 | 0xB5 | 0xAD | 0xBD | 0xB9 | 0xA1 | 0xB1 => Some(Operation::Lda),
        0xA2 | 0xA6 | 0xB6 | 0xAE | 0xBE => Some(Operation::Ldx),
        0xA0 | 0xA4 | 0xB4 | 0xAC | 0xBC => Some(Operation::Ldy),
        0x85 | 0x95 | 0x8D | 0x9D | 0x99 | 0x81 | 0x91 => Some(Operation::Sta),
        0x86 | 0x96 | 0x8E => Some(Operation::Stx),
        0x84 | 0x94 | 0x8C => Some(Operation::Sty),
        0xAA => Some(Operation::Tax),
        0xA8 => Some(Operation::Tay),
        0x8A => Some(Operation::Txa),
        0x98 => Some(Operation::Tya),
        0xBA => Some(Operation::Tsx),
        0x9A => Some(Operation::Txs),
        0x48 => Some(Operation::Pha),
        0x68 => Some(Operation::Pla),
        0x08 => Some(Operation::Php),
        0x28 => Some(Operation::Plp),
        0x69 | 0x65 | 0x75 | 0x6D | 0x7D | 0x79 | 0x61 | 0x71 => Some(Operation::Adc),
        0xE9 | 0xE5 | 0xF5 | 0xED | 0xFD | 0xF9 | 0xE1 | 0xF1 => Some(Operation::Sbc),
        0xE8 => Some(Operation::Inx),
        0xC8 => Some(Operation::Iny),
        0xCA => Some(Operation::Dex),
        0x88 => Some(Operation::Dey),
        0xE6 | 0xF6 | 0xEE | 0xFE => Some(Operation::Inc),
        0xC6 | 0xD6 | 0xCE | 0xDE => Some(Operation::Dec),
        0x0A | 0x06 | 0x16 | 0x0E | 0x1E => Some(Operation::Asl),
        0x4A | 0x46 | 0x56 | 0x4E | 0x5E => Some(Operation::Lsr),
        0x2A | 0x26 | 0x36 | 0x2E | 0x3E => Some(Operation::Rol),
        0x6A | 0x66 | 0x76 | 0x6E | 0x7E => Some(Operation::Ror),
        0x4C | 0x6C => Some(Operation::Jmp),
        0x20 => Some(Operation::Jsr),
        0x60 => Some(Operation::Rts),
        0x90 => Some(Operation::Bcc),
        0xB0 => Some(Operation::Bcs),
        0xF0 => Some(Operation::Beq),
        0xD0 => Some(Operation::Bne),
        0x30 => Some(Operation::Bmi),
        0x10 => Some(Operation::Bpl),
        0x50 => Some(Operation::Bvc),
        0x70 => Some(Operation::Bvs),
        0x18 => Some(Operation::Clc),
        0xD8 => Some(Operation::Cld),
        0x58 => Some(Operation::Cli),
        0xB8 => Some(Operation::Clv),
        0x38 => Some(Operation::Sec),
        0xF8 => Some(Operation::Sed),
        0x78 => Some(Operation::Sei),
        0x29 | 0x25 | 0x35 | 0x2D | 0x3D | 0x39 | 0x21 | 0x31 => Some(Operation::And),
        0x49 | 0x45 | 0x55 | 0x4D | 0x5D | 0x59 | 0x41 | 0x51 => Some(Operation::Eor),
        0x09 | 0x05 | 0x15 | 0x0D | 0x1D | 0x19 | 0x01 | 0x11 => Some(Operation::Ora),
        0xC9 | 0xC5 | 0xD5 | 0xCD | 0xDD | 0xD9 | 0xC1 | 0xD1 => Some(Operation::Cmp),
        0xE0 | 0xE4 | 0xEC => Some(Operation::Cpx),
        0xC0 | 0xC4 | 0xCC => Some(Operation::Cpy),
        0x24 | 0x2C => Some(Operation::Bit),
        0x00 => Some(Operation::Halt),
        0xEA => Some(Operation::Nop),
        _ => None,
    }
}

/// The addressing mode of `opcode`. Bytes that are no opcode are listed
/// under `Implied`.
pub open spec fn mode_at(opcode: u8) -> AddressingMode {
    match opcode {
        0x0A | 0x2A | 0x4A | 0x6A => AddressingMode::Accumulator,
        0x09 | 0x29 | 0x49 | 0x69 | 0xA0 | 0xA2 | 0xA9 | 0xC0
        | 0xC9 | 0xE0 | 0xE9 => AddressingMode::Immediate,
        0x05 | 0x06 | 0x24 | 0x25 | 0x26 | 0x45 | 0x46 | 0x65
        | 0x66 | 0x84 | 0x85 | 0x86 | 0xA4 | 0xA5 | 0xA6 | 0xC4
        | 0xC5 | 0xC6 | 0xE4 | 0xE5 | 0xE6 => AddressingMode::ZeroPage,
        0x15 | 0x16 | 0x35 | 0x36 | 0x55 | 0x56 | 0x75 | 0x76
        | 0x94 | 0x95 | 0xB4 | 0xB5 | 0xD5 | 0xD6 | 0xF5 | 0xF6 => AddressingMode::ZeroPageX,
        0x96 | 0xB6 => AddressingMode::ZeroPageY,
        0x0D | 0x0E | 0x20 | 0x2C | 0x2D | 0x2E | 0x4C | 0x4D
        | 0x4E | 0x6D | 0x6E | 0x8C | 0x8D | 0x8E | 0xAC | 0xAD
        | 0xAE | 0xCC | 0xCD | 0xCE | 0xEC | 0xED | 0xEE => AddressingMode::Absolute,
        0x1D | 0x1E | 0x3D | 0x3E | 0x5D | 0x5E | 0x7D | 0x7E
        | 0x9D | 0xBC | 0xBD | 0xDD | 0xDE | 0xFD | 0xFE => AddressingMode::AbsoluteX,
        0x19 | 0x39 | 0x59 | 0x79 | 0x99 | 0xB9 | 0xBE | 0xD9 | 0xF9 => AddressingMode::AbsoluteY,
        0x01 | 0x21 | 0x41 | 0x61 | 0x81 | 0xA1 | 0xC1 | 0xE1 => AddressingMode::IndirectX,
        0x11 | 0x31 | 0x51 | 0x71 | 0x91 | 0xB1 | 0xD1 | 0xF1 => AddressingMode::IndirectY,
        0x6C => AddressingMode::Indirect,
        0x10 | 0x30 | 0x50 | 0x70 | 0x90 | 0xB0 | 0xD0 | 0xF0 => AddressingMode::Relative,
        _ => AddressingMode::Implied,
    }
}

/// The table entry of `opcode`; `None` where the byte is no opcode.
pub open spec fn instruction_at(opcode: u8) -> Option<Instruction> {
    match operation_at(opcode) {
        Some(operation) => Some(Instruction { operation, mode: mode_at(opcode) }),
        None => None,
    }
}

impl AddressingMode {
    /// The number of operand bytes that follow the opcode.
    pub open spec fn operand_bytes(self) -> u8 {
        match self {
            AddressingMode::Implied | AddressingMode::Accumulator => 0,
            AddressingMode::Absolute
            | AddressingMode::AbsoluteX
            | AddressingMode::AbsoluteY
            | AddressingMode::Indirect => 2,
            _ => 1,
        }
    }

    /// Counts the operand bytes that follow the opcode.
    pub fn operand_length(self) -> (length: u8)
        ensures
            length == self.operand_bytes(),
    {
        match self {
            AddressingMode::Implied | AddressingMode::Accumulator => 0,
            AddressingMode::Absolute
            | AddressingMode::AbsoluteX
            | AddressingMode::AbsoluteY
            | AddressingMode::Indirect => 2,
            _ => 1,
        }
    }
}

/// The classes of operations, by what they need from their operand.
#[derive(Clone, Copy, Debug, PartialEq, Eq, Structural)]
pub enum Kind {
    /// Reads one byte, immediate or from memory, into a register operation.
    Read,
    /// Writes one register to memory.
    Store,
    /// Rewrites the accumulator or one byte of memory.
    Modify,
    /// Moves the program counter if a flag has a given value.
    Branch,
    /// Jumps, calls and returns.
    Flow,
    /// Pushes or pulls a register.
    Stack,
    /// Works on registers and flags alone.
    Register,
    /// Ends the run.
    Halt,
}

impl Operation {
    /// The class of this operation.
    pub open spec fn kind(self) -> Kind {
        match self {
            Operation::Lda
            | Operation::Ldx
            | Operation::Ldy
            | Operation::Adc
            | Operation::Sbc
            | Operation::And
            | Operation::Eor
            | Operation::Ora
            | Operation::Cmp
            | Operation::Cpx
            | Operation::Cpy
            | Operation::Bit => Kind::Read,
            Operation::Sta
            | Operation::Stx
            | Operation::Sty => Kind::Store,
            Operation::Asl
            | Operation::Lsr
            | Operation::Rol
            | Operation::Ror
            | Operation::Inc
            | Operation::Dec => Kind::Modify,
            Operation::Bcc
            | Operation::Bcs
            | Operation::Beq
            | Operation::Bne
            | Operation::Bmi
            | Operation::Bpl
            | Operation::Bvc
            | Operation::Bvs => Kind::Branch,
            Operation::Jmp
            | Operation::Jsr
            | Operation::Rts => Kind::Flow,
            Operation::Pha
            | Operation::Pla
            | Operation::Php
            | Operation::Plp => Kind::Stack,
            Operation::Halt => Kind::Halt,
            _ => Kind::Register,
        }
    }

    /// Classifies this operation.
    pub fn classify(self) -> (kind: Kind)
        ensures
            kind == self.kind(),
    {
        match self {
            Operation::Lda
            | Operation::Ldx
            | Operation::Ldy
            | Operation::Adc
            | Operation::Sbc
            | Operation::And
            | Operation::Eor
            | Operation::Ora
            | Operation::Cmp
            | Operation::Cpx
            | Operation::Cpy
            | Operation::Bit => Kind::Read,
            Operation::Sta
            | Operation::Stx
            | Operation::Sty => Kind::Store,
            Operation::Asl
            | Operation::Lsr
            | Operation::Rol
            | Operation::Ror
            | Operation::Inc
            | Operation::Dec => Kind::Modify,
            Operation::Bcc
            | Operation::Bcs
            | Operation::Beq
            | Operation::Bne
            | Operation::Bmi
            | Operation::Bpl
            | Operation::Bvc
            | Operation::Bvs => Kind::Branch,
            Operation::Jmp
            | Operation::Jsr
            | Operation::Rts => Kind::Flow,
            Operation::Pha
            | Operation::Pla
            | Operation::Php
            | Operation::Plp => Kind::Stack,
            Operation::Halt => Kind::Halt,
            _ => Kind::Register,
        }
    }
}

impl Instruction {
    /// Whether the instruction names an address: a memory operand, the
    /// stack, or a jump or branch target. The others work on registers and
    /// on the byte that follows the opcode.
    pub open spec fn needs_memory(self) -> bool {
        match self.operation.kind() {
            Kind::Register | Kind::Halt => false,
            Kind::Read => self.mode != AddressingMode::Immediate,
            Kind::Modify => self.mode != AddressingMode::Accumulator,
            _ => true,
        }
    }

    /// Tests whether the instruction names an address.
    pub fn uses_memory(self) -> (needed: bool)
        ensures
            needed == self.needs_memory(),
    {
        match self.operation.classify() {
            Kind::Register | Kind::Halt => false,
            Kind::Read => self.mode != AddressingMode::Immediate,
            Kind::Modify => self.mode != AddressingMode::Accumulator,
            _ => true,
        }
    }
}

/// Makes a table entry.
fn entry(operation: Operation, mode: AddressingMode) -> (found: Option<Instruction>)
    ensures
        found == Some(Instruction { operation, mode }),
{
    Some(Instruction { operation, mode })
}

/// Looks `opcode` up in the table. `None` is a decode failure: the byte
/// stands for no instruction.
pub fn decode(opcode: u8) -> (found: Option<Instruction>)
    ensures
        found == instruction_at(opcode),
{
    match opcode {
        0x00 => entry(Operation::Halt, AddressingMode::Implied),
        0x01 => entry(Operation::Ora, AddressingMode::IndirectX),
        0x05 => entry(Operation::Ora, AddressingMode::ZeroPage),
        0x06 => entry(Operation::Asl, AddressingMode::ZeroPage),
        0x08 => entry(Operation::Php, AddressingMode::Implied),
        0x09 => entry(Operation::Ora, AddressingMode::Immediate),
        0x0A => entry(Operation::Asl, AddressingMode::Accumulator),
        0x0D => entry(Operation::Ora, AddressingMode::Absolute),
        0x0E => entry(Operation::Asl, AddressingMode::Absolute),
        0x10 => entry(Operation::Bpl, AddressingMode::Relative),
        0x11 => entry(Operation::Ora, AddressingMode::IndirectY),
        0x15 => entry(Operation::Ora, AddressingMode::ZeroPageX),
        0x16 => entry(Operation::Asl, AddressingMode::ZeroPageX),
        0x18 => entry(Operation::Clc, AddressingMode::Implied),
        0x19 => entry(Operation::Ora, AddressingMode::AbsoluteY),
        0x1D => entry(Operation::Ora, AddressingMode::AbsoluteX),
        0x1E => entry(Operation::Asl, AddressingMode::AbsoluteX),
        0x20 => entry(Operation::Jsr, AddressingMode::Absolute),
        0x21 => entry(Operation::And, AddressingMode::IndirectX),
        0x24 => entry(Operation::Bit, AddressingMode::ZeroPage),
        0x25 => entry(Operation::And, AddressingMode::ZeroPage),
        0x26 => entry(Operation::Rol, AddressingMode::ZeroPage),
        0x28 => entry(Operation::Plp, AddressingMode::Implied),
        0x29 => entry(Operation::And, AddressingMode::Immediate),
        0x2A => entry(Operation::Rol, AddressingMode::Accumulator),
        0x2C => entry(Operation::Bit, AddressingMode::Absolute),
        0x2D => entry(Operation::And, AddressingMode::Absolute),
        0x2E => entry(Operation::Rol, AddressingMode::Absolute),
        0x30 => entry(Operation::Bmi, AddressingMode::Relative),
        0x31 => entry(Operation::And, AddressingMode::IndirectY),
        0x35 => entry(Operation::And, AddressingMode::ZeroPageX),
        0x36 => entry(Operation::Rol, AddressingMode::ZeroPageX),
        0x38 => entry(Operation::Sec, AddressingMode::Implied),
        0x39 => entry(Operation::And, AddressingMode::AbsoluteY),
        0x3D => entry(Operation::And, AddressingMode::AbsoluteX),
        0x3E => entry(Operation::Rol, AddressingMode::AbsoluteX),
        0x41 => entry(Operation::Eor, AddressingMode::IndirectX),
        0x45 => entry(Operation::Eor, AddressingMode::ZeroPage),
        0x46 => entry(Operation::Lsr, AddressingMode::ZeroPage),
        0x48 => entry(Operation::Pha, AddressingMode::Implied),
        0x49 => entry(Operation::Eor, AddressingMode::Immediate),
        0x4A => entry(Operation::Lsr, AddressingMode::Accumulator),
        0x4C => entry(Operation::Jmp, AddressingMode::Absolute),
        0x4D => entry(Operation::Eor, AddressingMode::Absolute),
        0x4E => entry(Operation::Lsr, AddressingMode::Absolute),
        0x50 => entry(Operation::Bvc, AddressingMode::Relative),
        0x51 => entry(Operation::Eor, AddressingMode::IndirectY),
        0x55 => entry(Operation::Eor, AddressingMode::ZeroPageX),
        0x56 => entry(Operation::Lsr, AddressingMode::ZeroPageX),
        0x58 => entry(Operation::Cli, AddressingMode::Implied),
        0x59 => entry(Operation::Eor, AddressingMode::AbsoluteY),
        0x5D => entry(Operation::Eor, AddressingMode::AbsoluteX),
        0x5E => entry(Operation::Lsr, AddressingMode::AbsoluteX),
        0x60 => entry(Operation::Rts, AddressingMode::Implied),
        0x61 => entry(Operation::Adc, AddressingMode::IndirectX),
        0x65 => entry(Operation::Adc, AddressingMode::ZeroPage),
        0x66 => entry(Operation::Ror, AddressingMode::ZeroPage),
        0x68 => entry(Operation::Pla, AddressingMode::Implied),
        0x69 => entry(Operation::Adc, AddressingMode::Immediate),
        0x6A => entry(Operation::Ror, AddressingMode::Accumulator),
        0x6C => entry(Operation::Jmp, AddressingMode::Indirect),
        0x6D => entry(Operation::Adc, AddressingMode::Absolute),
        0x6E => entry(Operation::Ror, AddressingMode::Absolute),
        0x70 => entry(Operation::Bvs, AddressingMode::Relative),
        0x71 => entry(Operation::Adc, AddressingMode::IndirectY),
        0x75 => entry(Operation::Adc, AddressingMode::ZeroPageX),
        0x76 => entry(Operation::Ror, AddressingMode::ZeroPageX),
        0x78 => entry(Operation::Sei, AddressingMode::Implied),
        0x79 => entry(Operation::Adc, AddressingMode::AbsoluteY),
        0x7D => entry(Operation::Adc, AddressingMode::AbsoluteX),
        0x7E => entry(Operation::Ror, AddressingMode::AbsoluteX),
        0x81 => entry(Operation::Sta, AddressingMode::IndirectX),
        0x84 => entry(Operation::Sty, AddressingMode::ZeroPage),
        0x85 => entry(Operation::Sta, AddressingMode::ZeroPage),
        0x86 => entry(Operation::Stx, AddressingMode::ZeroPage),
        0x88 => entry(Operation::Dey, AddressingMode::Implied),
        0x8A => entry(Operation::Txa, AddressingMode::Implied),
        0x8C => entry(Operation::Sty, AddressingMode::Absolute),
        0x8D => entry(Operation::Sta, AddressingMode::Absolute),
        0x8E => entry(Operation::Stx, AddressingMode::Absolute),
        0x90 => entry(Operation::Bcc, AddressingMode::Relative),
        0x91 => entry(Operation::Sta, AddressingMode::IndirectY),
        0x94 => entry(Operation::Sty, AddressingMode::ZeroPageX),
        0x95 => entry(Operation::Sta, AddressingMode::ZeroPageX),
        0x96 => entry(Operation::Stx, AddressingMode::ZeroPageY),
        0x98 => entry(Operation::Tya, AddressingMode::Implied),
        0x99 => entry(Operation::Sta, AddressingMode::AbsoluteY),
        0x9A => entry(Operation::Txs, AddressingMode::Implied),
        0x9D => entry(Operation::Sta, AddressingMode::AbsoluteX),
        0xA0 => entry(Operation::Ldy, AddressingMode::Immediate),
        0xA1 => entry(Operation::Lda, AddressingMode::IndirectX),
        0xA2 => entry(Operation::Ldx, AddressingMode::Immediate),
        0xA4 => entry(Operation::Ldy, AddressingMode::ZeroPage),
        0xA5 => entry(Operation::Lda, AddressingMode::ZeroPage),
        0xA6 => entry(Operation::Ldx, AddressingMode::ZeroPage),
        0xA8 => entry(Operation::Tay, AddressingMode::Implied),
        0xA9 => entry(Operation::Lda, AddressingMode::Immediate),
        0xAA => entry(Operation::Tax, AddressingMode::Implied),
        0xAC => entry(Operation::Ldy, AddressingMode::Absolute),
        0xAD => entry(Operation::Lda, AddressingMode::Absolute),
        0xAE => entry(Operation::Ldx, AddressingMode::Absolute),
        0xB0 => entry(Operation::Bcs, AddressingMode::Relative),
        0xB1 => entry(Operation::Lda, AddressingMode::IndirectY),
        0xB4 => entry(Operation::Ldy, AddressingMode::ZeroPageX),
        0xB5 => entry(Operation::Lda, AddressingMode::ZeroPageX),
        0xB6 => entry(Operation::Ldx, AddressingMode::ZeroPageY),
        0xB8 => entry(Operation::Clv, AddressingMode::Implied),
        0xB9 => entry(Operation::Lda, AddressingMode::AbsoluteY),
        0xBA => entry(Operation::Tsx, AddressingMode::Implied),
        0xBC => entry(Operation::Ldy, AddressingMode::AbsoluteX),
        0xBD => entry(Operation::Lda, AddressingMode::AbsoluteX),
        0xBE => entry(Operation::Ldx, AddressingMode::AbsoluteY),
        0xC0 => entry(Operation::Cpy, AddressingMode::Immediate),
        0xC1 => entry(Operation::Cmp, AddressingMode::IndirectX),
        0xC4 => entry(Operation::Cpy, AddressingMode::ZeroPage),
        0xC5 => entry(Operation::Cmp, AddressingMode::ZeroPage),
        0xC6 => entry(Operation::Dec, AddressingMode::ZeroPage),
        0xC8 => entry(Operation::Iny, AddressingMode::Implied),
        0xC9 => entry(Operation::Cmp, AddressingMode::Immediate),
        0xCA => entry(Operation::Dex, AddressingMode::Implied),
        0xCC => entry(Operation::Cpy, AddressingMode::Absolute),
        0xCD => entry(Operation::Cmp, AddressingMode::Absolute),
        0xCE => entry(Operation::Dec, AddressingMode::Absolute),
        0xD0 => entry(Operation::Bne, AddressingMode::Relative),
        0xD1 => entry(Operation::Cmp, AddressingMode::IndirectY),
        0xD5 => entry(Operation::Cmp, AddressingMode::ZeroPageX),
        0xD6 => entry(Operation::Dec, AddressingMode::ZeroPageX),
        0xD8 => entry(Operation::Cld, AddressingMode::Implied),
        0xD9 => entry(Operation::Cmp, AddressingMode::AbsoluteY),
        0xDD => entry(Operation::Cmp, AddressingMode::AbsoluteX),
        0xDE => entry(Operation::Dec, AddressingMode::AbsoluteX),
        0xE0 => entry(Operation::Cpx, AddressingMode::Immediate),
        0xE1 => entry(Operation::Sbc, AddressingMode::IndirectX),
        0xE4 => entry(Operation::Cpx, AddressingMode::ZeroPage),
        0xE5 => entry(Operation::Sbc, AddressingMode::ZeroPage),
        0xE6 => entry(Operation::Inc, AddressingMode::ZeroPage),
        0xE8 => entry(Operation::Inx, AddressingMode::Implied),
        0xE9 => entry(Operation::Sbc, AddressingMode::Immediate),
        0xEA => entry(Operation::Nop, AddressingMode::Implied),
        0xEC => entry(Operation::Cpx, AddressingMode::Absolute),
        0xED => entry(Operation::Sbc, AddressingMode::Absolute),
        0xEE => entry(Operation::Inc, AddressingMode::Absolute),
        0xF0 => entry(Operation::Beq, AddressingMode::Relative),
        0xF1 => entry(Operation::Sbc, AddressingMode::IndirectY),
        0xF5 => entry(Operation::Sbc, AddressingMode::ZeroPageX),
        0xF6 => entry(Operation::Inc, AddressingMode::ZeroPageX),
        0xF8 => entry(Operation::Sed, AddressingMode::Implied),
        0xF9 => entry(Operation::Sbc, AddressingMode::AbsoluteY),
        0xFD => entry(Operation::Sbc, AddressingMode::AbsoluteX),
        0xFE => entry(Operation::Inc, AddressingMode::AbsoluteX),
        _ => None,
    }
}

} // verus!
