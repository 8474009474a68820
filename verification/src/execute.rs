//! What each operation does to the registers and the memory, once its
//! operand is resolved.

use vstd::prelude::*;
use crate::addressing::Operand;
use crate::cpu::{decremented, incremented, shifted_left, shifted_right, CPU};
use crate::fault::Status;
use crate::flags::{CARRY, DECIMAL, INTERRUPT_DISABLE, NEGATIVE, OVERFLOW, ZERO};
use crate::memory::{
    advance, advanced, high_byte, low_byte, make_word, peek, poke, retreat, retreated, serves,
    split_word, word, Memory,
};
use crate::opcode::{Kind, Operation};
use crate::stack::{slot, stack_address, status_image};

verus! {

/// The byte that an operand stands for: the immediate value, or the byte at
/// the effective address where the memory serves it.
pub open spec fn value_of(memory: Seq<u8>, operand: Operand) -> Option<u8> {
    match operand {
        Operand::Immediate(value) => Some(value),
        Operand::Address(address) => peek(memory, address),
        _ => None,
    }
}

/// Reads the byte that an operand stands for.
pub fn operand_value(memory: &Memory, operand: Operand) -> (value: Option<u8>)
    ensures
        value == value_of(memory@, operand),
{
    match operand {
        Operand::Immediate(value) => Some(value),
        Operand::Address(address) => memory.read_byte(address),
        _ => None,
    }
}

impl CPU {
    /// The state after an operation of kind `Read` took `value`. Other
    /// operations leave the state as it is.
    pub open spec fn after_read(self, operation: Operation, value: u8) -> CPU {
        match operation {
            Operation::Lda => self.with_a(value),
            Operation::Ldx => self.with_x(value),
            Operation::Ldy => self.with_y(value),
            Operation::Adc => self.added(value),
            Operation::Sbc => self.subtracted(value),
            Operation::And => self.with_a(self.register_a & value),
            Operation::Eor => self.with_a(self.register_a ^ value),
            Operation::Ora => self.with_a(self.register_a | value),
            Operation::Cmp => self.compared(self.register_a, value),
            Operation::Cpx => self.compared(self.register_x, value),
            Operation::Cpy => self.compared(self.register_y, value),
            Operation::Bit => self.bit_tested(value),
            _ => self,
        }
    }

    /// The state after an operation of kind `Register`. Other operations
    /// leave the state as it is.
    pub open spec fn after_register(self, operation: Operation) -> CPU {
        match operation {
            Operation::Tax => self.with_x(self.register_a),
            Operation::Tay => self.with_y(self.register_a),
            Operation::Txa => self.with_a(self.register_x),
            Operation::Tya => self.with_a(self.register_y),
            Operation::Tsx => self.with_x(self.stack_pointer),
            Operation::Txs => CPU { stack_pointer: self.register_x, ..self },
            Operation::Inx => self.with_x(incremented(self.register_x)),
            Operation::Iny => self.with_y(incremented(self.register_y)),
            Operation::Dex => self.with_x(decremented(self.register_x)),
            Operation::Dey => self.with_y(decremented(self.register_y)),
            Operation::Clc => self.with_status_flag(CARRY, false),
            Operation::Cld => self.with_status_flag(DECIMAL, false),
            Operation::Cli => self.with_status_flag(INTERRUPT_DISABLE, false),
            Operation::Clv => self.with_status_flag(OVERFLOW, false),
            Operation::Sec => self.with_status_flag(CARRY, true),
            Operation::Sed => self.with_status_flag(DECIMAL, true),
            Operation::Sei => self.with_status_flag(INTERRUPT_DISABLE, true),
            _ => self,
        }
    }

    /// The byte that an operation of kind `Modify` makes of `value`, and the
    /// state after it. Other operations give `value` back and leave the
    /// state as it is.
    pub open spec fn after_modify(self, operation: Operation, value: u8) -> (u8, CPU) {
        match operation {
            Operation::Asl => {
                let result = shifted_left(value, false);
                (result, self.with_shift_flags(result, value >= 0x80))
            },
            Operation::Lsr => {
                let result = shifted_right(value, false);
                (result, self.with_shift_flags(result, value % 2 == 1))
            },
            Operation::Rol => {
                let result = shifted_left(value, self.has(CARRY));
                (result, self.with_shift_flags(result, value >= 0x80))
            },
            Operation::Ror => {
                let result = shifted_right(value, self.has(CARRY));
                (result, self.with_shift_flags(result, value % 2 == 1))
            },
            Operation::Inc => (incremented(value), self.reporting(incremented(value))),
            Operation::Dec => (decremented(value), self.reporting(decremented(value))),
            _ => (value, self),
        }
    }

    /// The register that a store writes: X for STX, Y for STY, the
    /// accumulator for every other operation.
    pub open spec fn stored(self, operation: Operation) -> u8 {
        match operation {
            Operation::Stx => self.register_x,
            Operation::Sty => self.register_y,
            _ => self.register_a,
        }
    }

    /// Whether a branch operation finds its condition met. Operations that
    /// are no branch never do.
    pub open spec fn branch_taken(self, operation: Operation) -> bool {
        match operation {
            Operation::Bcc => !self.has(CARRY),
            Operation::Bcs => self.has(CARRY),
            Operation::Bne => !self.has(ZERO),
            Operation::Beq => self.has(ZERO),
            Operation::Bpl => !self.has(NEGATIVE),
            Operation::Bmi => self.has(NEGATIVE),
            Operation::Bvc => !self.has(OVERFLOW),
            Operation::Bvs => self.has(OVERFLOW),
            _ => false,
        }
    }

    /// This state with the program counter at `target`.
    pub open spec fn at(self, target: u16) -> CPU {
        CPU { program_counter: target, ..self }
    }

    /// The state and memory after a subroutine call to `target`: the address
    /// of the last byte of the call instruction is pushed, high byte first,
    /// and the program counter goes to `target`. The program counter of
    /// `self` is the address that follows the call instruction.
    pub open spec fn called(self, memory: Seq<u8>, target: u16) -> Option<(CPU, Seq<u8>)> {
        let link = retreated(self.program_counter);
        match self.pushed(memory, high_byte(link)) {
            Some((first, bytes)) => match first.pushed(bytes, low_byte(link)) {
                Some((second, image)) => Some((second.at(target), image)),
                None => None,
            },
            None => None,
        }
    }

    /// The state after a return from a subroutine: the low and the high byte
    /// of an address are pulled, and the program counter goes to the address
    /// that follows it.
    pub open spec fn returned(self, memory: Seq<u8>) -> Option<CPU> {
        match self.pulled(memory) {
            Some((first, low)) => match first.pulled(memory) {
                Some((second, high)) => Some(second.at(advanced(word(low, high), 1))),
                None => None,
            },
            None => None,
        }
    }

    /// The state, the memory and the status after `operation` ran on
    /// `operand`. The program counter of `self` is the address that follows
    /// the instruction. `None` where the operand names no byte or address
    /// that the operation can use, or the memory refuses one.
    pub open spec fn executed(self, memory: Seq<u8>, operation: Operation, operand: Operand)
        -> Option<(CPU, Seq<u8>, Status)> {
        match operation.kind() {
            Kind::Read => match value_of(memory, operand) {
                Some(value) => Some((self.after_read(operation, value), memory, Status::Running)),
                None => None,
            },
            Kind::Store => match operand {
                Operand::Address(address) if serves(memory, address) => Some(
                    (self, poke(memory, address, self.stored(operation)), Status::Running),
                ),
                _ => None,
            },
            Kind::Modify => match operand {
                Operand::Accumulator => {
                    let (result, cpu) = self.after_modify(operation, self.register_a);
                    Some((CPU { register_a: result, ..cpu }, memory, Status::Running))
                },
                Operand::Address(address) => match peek(memory, address) {
                    Some(value) => {
                        let (result, cpu) = self.after_modify(operation, value);
                        Some((cpu, poke(memory, address, result), Status::Running))
                    },
                    None => None,
                },
                _ => None,
            },
            Kind::Branch => match operand {
                Operand::Address(target) => Some(
                    (
                        if self.branch_taken(operation) {
                            self.at(target)
                        } else {
                            self
                        },
                        memory,
                        Status::Running,
                    ),
                ),
                _ => None,
            },
            Kind::Flow => match (operation, operand) {
                (Operation::Rts, _) => match self.returned(memory) {
                    Some(cpu) => Some((cpu, memory, Status::Running)),
                    None => None,
                },
                (Operation::Jsr, Operand::Address(target)) => match self.called(memory, target) {
                    Some((cpu, bytes)) => Some((cpu, bytes, Status::Running)),
                    None => None,
                },
                (_, Operand::Address(target)) => Some((self.at(target), memory, Status::Running)),
                _ => None,
            },
            Kind::Stack => match operation {
                Operation::Pha => match self.pushed(memory, self.register_a) {
                    Some((cpu, bytes)) => Some((cpu, bytes, Status::Running)),
                    None => None,
                },
                Operation::Php => match self.pushed(memory, status_image(self.status)) {
                    Some((cpu, bytes)) => Some((cpu, bytes, Status::Running)),
                    None => None,
                },
                Operation::Pla => match self.pulled(memory) {
                    Some((cpu, value)) => Some((cpu.with_a(value), memory, Status::Running)),
                    None => None,
                },
                _ => match self.pulled(memory) {
                    Some((cpu, value)) => Some(
                        (CPU { status: value, ..cpu }, memory, Status::Running),
                    ),
                    None => None,
                },
            },
            Kind::Register => Some((self.after_register(operation), memory, Status::Running)),
            Kind::Halt => Some((self, memory, Status::Halted)),
        }
    }

    /// Runs an operation of kind `Read` on `value`.
    pub fn apply_read(&mut self, operation: Operation, value: u8)
        ensures
            *final(self) == old(self).after_read(operation, value),
    {
        match operation {
            Operation::Lda => self.lda(value),
            Operation::Ldx => self.ldx(value),
            Operation::Ldy => self.ldy(value),
            Operation::Adc => self.adc(value),
            Operation::Sbc => self.sbc(value),
            Operation::And => self.and(value),
            Operation::Eor => self.eor(value),
            Operation::Ora => self.ora(value),
            Operation::Cmp => self.cmp(value),
            Operation::Cpx => self.cpx(value),
            Operation::Cpy => self.cpy(value),
            Operation::Bit => self.bit(value),
            _ => {},
        }
    }

    /// Runs an operation of kind `Register`.
    pub fn apply_register(&mut self, operation: Operation)
        ensures
            *final(self) == old(self).after_register(operation),
    {
        match operation {
            Operation::Tax => self.tax(),
            Operation::Tay => self.tay(),
            Operation::Txa => self.txa(),
            Operation::Tya => self.tya(),
            Operation::Tsx => self.tsx(),
            Operation::Txs => self.txs(),
            Operation::Inx => self.inx(),
            Operation::Iny => self.iny(),
            Operation::Dex => self.dex(),
            Operation::Dey => self.dey(),
            Operation::Clc => self.clc(),
            Operation::Cld => self.cld(),
            Operation::Cli => self.cli(),
            Operation::Clv => self.clv(),
            Operation::Sec => self.sec(),
            Operation::Sed => self.sed(),
            Operation::Sei => self.sei(),
            _ => {},
        }
    }

    /// Runs an operation of kind `Modify` on `value` and returns the byte
    /// that it makes of it.
    pub fn apply_modify(&mut self, operation: Operation, value: u8) -> (result: u8)
        ensures
            (result, *final(self)) == old(self).after_modify(operation, value),
    {
        match operation {
            Operation::Asl => self.asl(value),
            Operation::Lsr => self.lsr(value),
            Operation::Rol => self.rol(value),
            Operation::Ror => self.ror(value),
            Operation::Inc => self.inc(value),
            Operation::Dec => self.dec(value),
            _ => value,
        }
    }

    /// Picks the register that a store writes.
    pub fn store_value(&self, operation: Operation) -> (value: u8)
        ensures
            value == self.stored(operation),
    {
        match operation {
            Operation::Stx => self.register_x,
            Operation::Sty => self.register_y,
            _ => self.register_a,
        }
    }

    /// Tests the condition of a branch.
    pub fn branch_condition(&self, operation: Operation) -> (taken: bool)
        ensures
            taken == self.branch_taken(operation),
    {
        match operation {
            Operation::Bcc => !self.flag(CARRY),
            Operation::Bcs => self.flag(CARRY),
            Operation::Bne => !self.flag(ZERO),
            Operation::Beq => self.flag(ZERO),
            Operation::Bpl => !self.flag(NEGATIVE),
            Operation::Bmi => self.flag(NEGATIVE),
            Operation::Bvc => !self.flag(OVERFLOW),
            Operation::Bvs => self.flag(OVERFLOW),
            _ => false,
        }
    }

    /// JSR: pushes the address of the last byte of the call instruction,
    /// high byte first, and jumps to `target`. The program counter must
    /// stand behind the call instruction. Returns whether the memory served
    /// both stack slots; a refused call changes nothing.
    pub fn jsr(&mut self, memory: &mut Memory, target: u16) -> (served: bool)
        ensures
            match old(self).called(old(memory)@, target) {
                Some((cpu, bytes)) => served && *final(self) == cpu && final(memory)@ == bytes,
                None => !served && *final(self) == *old(self) && final(memory)@ == old(memory)@,
            },
    {
        let (low, high) = split_word(retreat(self.program_counter));
        let first: u16 = slot(self.stack_pointer);
        let second: u16 = slot(self.stack_pointer.wrapping_sub(1));
        if memory.read_byte(first).is_none() || memory.read_byte(second).is_none() {
            return false;
        }
        self.push(memory, high);
        self.push(memory, low);
        self.program_counter = target;
        true
    }

    /// RTS: pulls an address, low byte first, and jumps behind it. Returns
    /// whether the memory served both stack slots; a refused return changes
    /// nothing.
    pub fn rts(&mut self, memory: &Memory) -> (served: bool)
        ensures
            match old(self).returned(memory@) {
                Some(cpu) => served && *final(self) == cpu,
                None => !served && *final(self) == *old(self),
            },
    {
        let before = *self;
        match self.pull(memory) {
            Some(low) => match self.pull(memory) {
                Some(high) => {
                    self.program_counter = advance(make_word(low, high), 1);
                    true
                },
                None => {
                    *self = before;
                    false
                },
            },
            None => false,
        }
    }

    /// Runs `operation` on `operand`. The program counter must stand behind
    /// the instruction. Returns the status after it, or `None` where the
    /// operand names no byte or address that the operation can use or the
    /// memory refuses one; then nothing has changed.
    pub fn execute(
        &mut self,
        memory: &mut Memory,
        operation: Operation,
        operand: Operand,
    ) -> (status: Option<Status>)
        ensures
            match old(self).executed(old(memory)@, operation, operand) {
                Some((cpu, bytes, after)) => status == Some(after) && *final(self) == cpu
                    && final(memory)@ == bytes,
                None => status.is_none() && *final(self) == *old(self) && final(memory)@ == old(
                    memory,
                )@,
            },
    {
        let served = match operation.classify() {
            Kind::Read => match operand_value(memory, operand) {
                Some(value) => {
                    self.apply_read(operation, value);
                    true
                },
                None => false,
            },
            Kind::Store => match operand {
                Operand::Address(address) => memory.write_byte(
                    address,
                    self.store_value(operation),
                ),
                _ => false,
            },
            Kind::Modify => match operand {
                Operand::Accumulator => {
                    self.register_a = self.apply_modify(operation, self.register_a);
                    true
                },
                Operand::Address(address) => match memory.read_byte(address) {
                    Some(value) => {
                        let result: u8 = self.apply_modify(operation, value);
                        memory.write_byte(address, result)
                    },
                    None => false,
                },
                _ => false,
            },
            Kind::Branch => match operand {
                Operand::Address(target) => {
                    if self.branch_condition(operation) {
                        self.program_counter = target;
                    }
                    true
                },
                _ => false,
            },
            Kind::Flow => match (operation, operand) {
                (Operation::Rts, _) => self.rts(memory),
                (Operation::Jsr, Operand::Address(target)) => self.jsr(memory, target),
                (_, Operand::Address(target)) => {
                    self.program_counter = target;
                    true
                },
                _ => false,
            },
            Kind::Stack => match operation {
                Operation::Pha => self.pha(memory),
                Operation::Php => self.php(memory),
                Operation::Pla => self.pla(memory),
                _ => self.plp(memory),
            },
            Kind::Register => {
                self.apply_register(operation);
                true
            },
            Kind::Halt => {
                return Some(Status::Halted);
            },
        };
        if served {
            Some(Status::Running)
        } else {
            None
        }
    }
}

} // verus!
