//! Laws that relate several operations of the machine.

use vstd::prelude::*;
use crate::cpu::{sign_lost, CPU};
use crate::fault::{Fault, Status};
use crate::flags::{lemma_with_flag, lemma_zero_negative, with_flag, CARRY, OVERFLOW};
use crate::machine::{decoded_at, image_step, performed, run_of, step_of};
use crate::memory::{advanced, high_byte, low_byte, retreated, signed, word};
use crate::opcode::{instruction_at, AddressingMode, Instruction, Operation};

verus! {

/// Carry after an addition says that the unsigned sum left the range of a
/// byte, and Overflow says that the signed sum left it.
pub proof fn adc_flags_describe_the_sum(cpu: CPU, value: u8)
    ensures
        cpu.added(value).register_a == (cpu.register_a + value + cpu.carry_in()) % 256,
        cpu.added(value).has(CARRY) == (cpu.register_a + value + cpu.carry_in() > 255),
        cpu.added(value).has(OVERFLOW) == !(-128 <= signed(cpu.register_a) + signed(value)
            + cpu.carry_in() <= 127),
{
    let sum = cpu.register_a + value + cpu.carry_in();
    let result = (sum % 256) as u8;
    let carried = with_flag(cpu.status, CARRY, sum > 0xFF);
    let lost = sign_lost(cpu.register_a, value, result);
    let marked = with_flag(carried, OVERFLOW, lost);
    lemma_with_flag(cpu.status, CARRY, sum > 0xFF, CARRY);
    lemma_with_flag(carried, OVERFLOW, lost, CARRY);
    lemma_with_flag(carried, OVERFLOW, lost, OVERFLOW);
    lemma_zero_negative(marked, result, CARRY);
    lemma_zero_negative(marked, result, OVERFLOW);
}

/// Subtraction undoes addition: after adding `value` with some incoming
/// Carry, subtracting `value` with the opposite incoming Carry gives the
/// accumulator back.
pub proof fn sbc_undoes_adc(cpu: CPU, value: u8)
    ensures
        cpu.added(value).with_status_flag(CARRY, !cpu.has(CARRY)).subtracted(value).register_a
            == cpu.register_a,
{
    lemma_with_flag(cpu.added(value).status, CARRY, !cpu.has(CARRY), CARRY);
    assert(!value == 255 - value) by (bit_vector);
}

/// A subtraction takes `value` and the borrow, which is the opposite of
/// the incoming Carry, from the accumulator; Carry afterwards says that the
/// difference did not go below zero.
pub proof fn sbc_flags_describe_the_difference(cpu: CPU, value: u8)
    ensures
        cpu.subtracted(value).register_a == (cpu.register_a - value - (1 - cpu.carry_in())) % 256,
        cpu.subtracted(value).has(CARRY) == (cpu.register_a - value - (1 - cpu.carry_in()) >= 0),
{
    assert(!value == 255 - value) by (bit_vector);
    adc_flags_describe_the_sum(cpu, !value);
}

/// A pull that follows a push gives the pushed byte back and leaves the
/// registers, the stack pointer among them, as they were before the push.
pub proof fn pull_undoes_push(cpu: CPU, memory: Seq<u8>, value: u8)
    ensures
        match cpu.pushed(memory, value) {
            Some((after, bytes)) => after.pulled(bytes) == Some((cpu, value)),
            None => true,
        },
{
}

/// A return that follows a call comes back behind the call: where the step
/// at the program counter is a call, and the instruction that it jumps to
/// is a return, the next step leaves the program counter behind the three
/// bytes of the call, and every register as it was before the call.
pub proof fn return_undoes_call(cpu: CPU, memory: Seq<u8>)
    requires
        decoded_at(cpu, memory) == Ok::<Instruction, Fault>(
            Instruction { operation: Operation::Jsr, mode: AddressingMode::Absolute },
        ),
        step_of(cpu, memory) is Ok,
        decoded_at(step_of(cpu, memory)->Ok_0.0, step_of(cpu, memory)->Ok_0.1) == Ok::<
            Instruction,
            Fault,
        >(Instruction { operation: Operation::Rts, mode: AddressingMode::Implied }),
    ensures
        step_of(step_of(cpu, memory)->Ok_0.0, step_of(cpu, memory)->Ok_0.1) == Ok::<
            (CPU, Seq<u8>, Status),
            Fault,
        >((cpu.past(3), step_of(cpu, memory)->Ok_0.1, Status::Running)),
{
    let call = Instruction { operation: Operation::Jsr, mode: AddressingMode::Absolute };
    let back = Instruction { operation: Operation::Rts, mode: AddressingMode::Implied };
    let (called, bytes, _) = step_of(cpu, memory)->Ok_0;
    assert(step_of(cpu, memory) == performed(cpu, memory, call));
    assert(step_of(called, bytes) == performed(called, bytes, back));
    let link = retreated(cpu.past(1).past(2).program_counter);
    assert(word(low_byte(link), high_byte(link)) == link);
    assert(advanced(link, 1) == cpu.past(3).program_counter);
}

/// A memory that covers the whole address space never refuses a byte: a
/// step on it faults only at a byte that is no opcode. So every entry of
/// the opcode table pairs its operation with an operand that it can use.
pub proof fn full_memory_faults_only_on_decode(cpu: CPU, memory: Seq<u8>)
    requires
        memory.len() >= 0x1_0000,
    ensures
        step_of(cpu, memory) is Err <==> instruction_at(
            memory[cpu.program_counter as int],
        ) is None,
        step_of(cpu, memory) is Ok ==> step_of(cpu, memory)->Ok_0.1.len() == memory.len(),
{
}

/// A run can be cut in two: where the first `first` steps end `Running`,
/// `second` more steps from there give what `first + second` steps give
/// from the start.
pub proof fn run_goes_on(cpu: CPU, memory: Seq<u8>, first: nat, second: nat)
    requires
        run_of(cpu, memory, first).2 == Ok::<Status, Fault>(Status::Running),
    ensures
        run_of(cpu, memory, first + second) == run_of(
            run_of(cpu, memory, first).0,
            run_of(cpu, memory, first).1,
            second,
        ),
    decreases first,
{
    if first > 0 {
        match step_of(cpu, memory) {
            Ok((next, bytes, Status::Running)) => {
                run_goes_on(next, bytes, (first - 1) as nat, second);
                assert(first + second - 1 == (first - 1) as nat + second);
            },
            _ => {},
        }
    }
}

/// On a standalone image, an instruction that does not end the run leaves
/// the program counter behind its opcode and its operand bytes.
pub proof fn image_step_moves_forward(cpu: CPU, image: Seq<u8>)
    ensures
        match (image_step(cpu, image), decoded_at(cpu, image)) {
            (Ok((next, _)), Ok(instruction)) => next.program_counter == advanced(
                advanced(cpu.program_counter, 1),
                instruction.mode.operand_bytes(),
            ),
            _ => true,
        },
{
}

} // verus!
