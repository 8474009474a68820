//! The stack: 256 bytes in page 1, addressed by the stack pointer, which
//! goes down on a push and up on a pull.

use vstd::prelude::*;
use crate::cpu::{decremented, incremented, CPU};
use crate::flags::{BREAK, UNUSED};
use crate::memory::{peek, poke, serves, Memory};

verus! {

/// The address in page 1 that the stack pointer value `pointer` names.
pub open spec fn stack_address(pointer: u8) -> u16 {
    (0x0100 + pointer) as u16
}

/// The status byte as it is pushed: bits 4 and 5 are always set in the
/// copy on the stack.
pub open spec fn status_image(status: u8) -> u8 {
    status | BREAK | UNUSED
}

/// Computes the address of a stack slot.
pub fn slot(pointer: u8) -> (address: u16)
    ensures
        address == stack_address(pointer),
{
    0x0100 + pointer as u16
}

impl CPU {
    /// The state and memory after a push of `value`: the byte is written
    /// where the stack pointer points, then the pointer goes down by one,
    /// wrapping. `None` where the memory does not serve that address.
    pub open spec fn pushed(self, memory: Seq<u8>, value: u8) -> Option<(CPU, Seq<u8>)> {
        let address = stack_address(self.stack_pointer);
        if serves(memory, address) {
            Some(
                (
                    CPU { stack_pointer: decremented(self.stack_pointer), ..self },
                    poke(memory, address, value),
                ),
            )
        } else {
            None
        }
    }

    /// The state after a pull and the byte pulled: the stack pointer goes up
    /// by one, wrapping, then the byte it points to is read. `None` where
    /// the memory does not serve that address.
    pub open spec fn pulled(self, memory: Seq<u8>) -> Option<(CPU, u8)> {
        let pointer = incremented(self.stack_pointer);
        match peek(memory, stack_address(pointer)) {
            Some(value) => Some((CPU { stack_pointer: pointer, ..self }, value)),
            None => None,
        }
    }

    /// Pushes one byte. Returns whether the memory served the stack slot; a
    /// refused push changes nothing.
    pub fn push(&mut self, memory: &mut Memory, value: u8) -> (served: bool)
        ensures
            match old(self).pushed(old(memory)@, value) {
                Some((cpu, bytes)) => served && *final(self) == cpu && final(memory)@ == bytes,
                None => !served && *final(self) == *old(self) && final(memory)@ == old(memory)@,
            },
    {
        let served = memory.write_byte(slot(self.stack_pointer), value);
        if served {
            self.stack_pointer = self.stack_pointer.wrapping_sub(1);
        }
        served
    }

    /// Pulls one byte. `None` where the memory does not serve the stack
    /// slot; a refused pull changes nothing.
    pub fn pull(&mut self, memory: &Memory) -> (value: Option<u8>)
        ensures
            match old(self).pulled(memory@) {
                Some((cpu, byte)) => value == Some(byte) && *final(self) == cpu,
                None => value.is_none() && *final(self) == *old(self),
            },
    {
        let pointer: u8 = self.stack_pointer.wrapping_add(1);
        let value = memory.read_byte(slot(pointer));
        if value.is_some() {
            self.stack_pointer = pointer;
        }
        value
    }

    /// PHA: pushes the accumulator.
    pub fn pha(&mut self, memory: &mut Memory) -> (served: bool)
        ensures
            match old(self).pushed(old(memory)@, old(self).register_a) {
                Some((cpu, bytes)) => served && *final(self) == cpu && final(memory)@ == bytes,
                None => !served && *final(self) == *old(self) && final(memory)@ == old(memory)@,
            },
    {
        self.push(memory, self.register_a)
    }

    /// PLA: pulls the accumulator and reports on it in Zero and Negative.
    pub fn pla(&mut self, memory: &Memory) -> (served: bool)
        ensures
            match old(self).pulled(memory@) {
                Some((cpu, byte)) => served && *final(self) == cpu.with_a(byte),
                None => !served && *final(self) == *old(self),
            },
    {
        match self.pull(memory) {
            Some(value) => {
                self.lda(value);
                true
            },
            None => false,
        }
    }

    /// PHP: pushes the status byte, with bits 4 and 5 set in the copy.
    pub fn php(&mut self, memory: &mut Memory) -> (served: bool)
        ensures
            match old(self).pushed(old(memory)@, status_image(old(self).status)) {
                Some((cpu, bytes)) => served && *final(self) == cpu && final(memory)@ == bytes,
                None => !served && *final(self) == *old(self) && final(memory)@ == old(memory)@,
            },
    {
        self.push(memory, self.status | BREAK | UNUSED)
    }

    /// PLP: pulls the status byte as it stands on the stack.
    pub fn plp(&mut self, memory: &Memory) -> (served: bool)
        ensures
            match old(self).pulled(memory@) {
                Some((cpu, byte)) => served && *final(self) == (CPU { status: byte, ..cpu }),
                None => !served && *final(self) == *old(self),
            },
    {
        match self.pull(memory) {
            Some(value) => {
                self.status = value;
                true
            },
            None => false,
        }
    }
}

} // verus!
