//! The fetch-decode-execute cycle: one step, a bounded run on a memory, and
//! a run on a standalone program image.

use vstd::prelude::*;
use crate::addressing::operand_of;
use crate::cpu::CPU;
use crate::fault::{Fault, Status};
use crate::memory::{peek, Memory};
use crate::opcode::{decode, instruction_at, AddressingMode, Instruction, Kind};

verus! {

/// The instruction that the program counter points to, or the fault that
/// the fetch ends in: an addressing fault where the memory does not serve
/// the program counter, a decode fault where the byte is no opcode.
pub open spec fn decoded_at(cpu: CPU, memory: Seq<u8>) -> Result<Instruction, Fault> {
    let at = cpu.program_counter;
    match peek(memory, at) {
        None => Err(Fault::Addressing { program_counter: at }),
        Some(opcode) => match instruction_at(opcode) {
            None => Err(Fault::Decode { opcode, program_counter: at }),
            Some(instruction) => Ok(instruction),
        },
    }
}

/// The state, the memory and the status after `instruction`, whose opcode
/// stands at the program counter: the operand is resolved behind the
/// opcode, the program counter moves behind the operand bytes, and the
/// operation runs. Where the memory refuses a byte on the way, the result
/// is an addressing fault that names the address of the opcode.
pub open spec fn performed(cpu: CPU, memory: Seq<u8>, instruction: Instruction) -> Result<
    (CPU, Seq<u8>, Status),
    Fault,
> {
    let fault = Fault::Addressing { program_counter: cpu.program_counter };
    let fetched = cpu.past(1);
    match operand_of(fetched, memory, instruction.mode) {
        None => Err(fault),
        Some(operand) => match fetched.past(instruction.mode.operand_bytes()).executed(
            memory,
            instruction.operation,
            operand,
        ) {
            None => Err(fault),
            Some(effect) => Ok(effect),
        },
    }
}

/// One step of the machine: fetch, decode, resolve, execute.
pub open spec fn step_of(cpu: CPU, memory: Seq<u8>) -> Result<(CPU, Seq<u8>, Status), Fault> {
    match decoded_at(cpu, memory) {
        Err(fault) => Err(fault),
        Ok(instruction) => performed(cpu, memory, instruction),
    }
}

/// At most `limit` steps of the machine. The run ends before that at a halt
/// or a fault. A fault leaves the state and the memory as they were before
/// the step that faulted; a run that used up its steps is still `Running`.
pub open spec fn run_of(cpu: CPU, memory: Seq<u8>, limit: nat) -> (CPU, Seq<u8>, Result<
    Status,
    Fault,
>)
    decreases limit,
{
    if limit == 0 {
        (cpu, memory, Ok(Status::Running))
    } else {
        match step_of(cpu, memory) {
            Err(fault) => (cpu, memory, Err(fault)),
            Ok((next, bytes, Status::Halted)) => (next, bytes, Ok(Status::Halted)),
            Ok((next, bytes, Status::Running)) => run_of(next, bytes, (limit - 1) as nat),
        }
    }
}

/// One step on a standalone image. The image is the instruction stream and
/// nothing else: an instruction that names an address ends in an addressing
/// fault, every other instruction does what it does on a memory.
pub open spec fn image_step(cpu: CPU, image: Seq<u8>) -> Result<(CPU, Status), Fault> {
    match decoded_at(cpu, image) {
        Err(fault) => Err(fault),
        Ok(instruction) => if instruction.needs_memory() {
            Err(Fault::Addressing { program_counter: cpu.program_counter })
        } else {
            match performed(cpu, image, instruction) {
                Err(fault) => Err(fault),
                Ok((next, _, status)) => Ok((next, status)),
            }
        },
    }
}

/// The run of a standalone image from the program counter of `cpu` to a
/// halt or a fault. The image is read front to back: where the program
/// counter does not move forward, which happens only when it wraps behind
/// 0xFFFF, the run ends in an addressing fault at the wrapped counter.
pub open spec fn image_run(cpu: CPU, image: Seq<u8>) -> (CPU, Result<(), Fault>)
    decreases 0x1_0000 - cpu.program_counter,
{
    match image_step(cpu, image) {
        Err(fault) => (cpu, Err(fault)),
        Ok((next, Status::Halted)) => (next, Ok(())),
        Ok((next, Status::Running)) => if next.program_counter > cpu.program_counter {
            image_run(next, image)
        } else {
            (next, Err(Fault::Addressing { program_counter: next.program_counter }))
        },
    }
}

/// An instruction that names no address leaves the memory as it is.
pub proof fn lemma_register_step_keeps_memory(cpu: CPU, memory: Seq<u8>, instruction: Instruction)
    requires
        !instruction.needs_memory(),
    ensures
        match performed(cpu, memory, instruction) {
            Ok((_, bytes, _)) => bytes == memory,
            Err(_) => true,
        },
{
}

impl CPU {
    /// Fetches and decodes the opcode at the program counter, which stays
    /// where it is.
    pub fn fetch(&self, memory: &Memory) -> (fetched: Result<Instruction, Fault>)
        ensures
            fetched == decoded_at(*self, memory@),
    {
        let at: u16 = self.program_counter;
        match memory.read_byte(at) {
            None => Err(Fault::Addressing { program_counter: at }),
            Some(opcode) => match decode(opcode) {
                None => Err(Fault::Decode { opcode, program_counter: at }),
                Some(instruction) => Ok(instruction),
            },
        }
    }

    /// Performs `instruction`, whose opcode stands at the program counter.
    /// After a fault the state and the memory are as they were.
    pub fn perform(&mut self, memory: &mut Memory, instruction: Instruction) -> (outcome: Result<
        Status,
        Fault,
    >)
        ensures
            match performed(*old(self), old(memory)@, instruction) {
                Ok((cpu, bytes, status)) => outcome == Ok::<Status, Fault>(status) && *final(self)
                    == cpu && final(memory)@ == bytes,
                Err(fault) => outcome == Err::<Status, Fault>(fault) && *final(self) == *old(self)
                    && final(memory)@ == old(memory)@,
            },
    {
        let before = *self;
        let fault = Fault::Addressing { program_counter: self.program_counter };
        self.program_counter = self.program_counter.wrapping_add(1);
        match self.resolve(memory, instruction.mode) {
            None => {
                *self = before;
                Err(fault)
            },
            Some(operand) => match self.execute(memory, instruction.operation, operand) {
                None => {
                    *self = before;
                    Err(fault)
                },
                Some(status) => Ok(status),
            },
        }
    }

    /// One step: fetches the opcode at the program counter, decodes it,
    /// resolves its operand and executes it. After a fault the state and the
    /// memory are as they were before the step.
    pub fn step(&mut self, memory: &mut Memory) -> (outcome: Result<Status, Fault>)
        ensures
            match step_of(*old(self), old(memory)@) {
                Ok((cpu, bytes, status)) => outcome == Ok::<Status, Fault>(status) && *final(self)
                    == cpu && final(memory)@ == bytes,
                Err(fault) => outcome == Err::<Status, Fault>(fault) && *final(self) == *old(self)
                    && final(memory)@ == old(memory)@,
            },
    {
        match self.fetch(memory) {
            Err(fault) => Err(fault),
            Ok(instruction) => self.perform(memory, instruction),
        }
    }

    /// Runs at most `limit` steps from the program counter and stops before
    /// that at a halt or a fault. `Ok(Running)` says that the steps were
    /// used up; a further call goes on from there.
    pub fn run(&mut self, memory: &mut Memory, limit: usize) -> (outcome: Result<Status, Fault>)
        ensures
            (*final(self), final(memory)@, outcome) == run_of(
                *old(self),
                old(memory)@,
                limit as nat,
            ),
    {
        let mut left: usize = limit;
        while left > 0
            invariant
                run_of(*self, memory@, left as nat) == run_of(
                    *old(self),
                    old(memory)@,
                    limit as nat,
                ),
            decreases left,
        {
            match self.step(memory) {
                Err(fault) => {
                    return Err(fault);
                },
                Ok(Status::Halted) => {
                    return Ok(Status::Halted);
                },
                Ok(Status::Running) => {
                    left = left - 1;
                },
            }
        }
        Ok(Status::Running)
    }

    /// Runs `program` as a standalone image from offset 0 to its halt. The
    /// registers and flags are taken as they stand; only the program counter
    /// is reset. The image is the instruction stream and nothing else: the
    /// run ends in a decode fault at a byte that is no opcode, and in an
    /// addressing fault where it leaves the image or meets an instruction
    /// that names an address. After a fault the state is as it was before
    /// the step that faulted.
    pub fn interpret(&mut self, program: Vec<u8>) -> (outcome: Result<(), Fault>)
        ensures
            (*final(self), outcome) == image_run(old(self).at(0), program@),
    {
        let ghost image = program@;
        let mut memory = Memory::from_image(program);
        self.program_counter = 0;
        loop
            invariant
                image == program@,
                memory@ == image,
                image_run(*self, image) == image_run(old(self).at(0), image),
            decreases 0x1_0000 - self.program_counter,
        {
            let at: u16 = self.program_counter;
            let instruction = match self.fetch(&memory) {
                Err(fault) => {
                    return Err(fault);
                },
                Ok(instruction) => instruction,
            };
            if instruction.uses_memory() {
                return Err(Fault::Addressing { program_counter: at });
            }
            proof {
                lemma_register_step_keeps_memory(*self, image, instruction);
            }
            match self.perform(&mut memory, instruction) {
                Err(fault) => {
                    return Err(fault);
                },
                Ok(Status::Halted) => {
                    return Ok(());
                },
                Ok(Status::Running) => {
                    if self.program_counter <= at {
                        return Err(Fault::Addressing { program_counter: self.program_counter });
                    }
                },
            }
        }
    }
}

} // verus!
