//! The lookahead is transparent: inspecting the next instruction changes
//! nothing, so a run goes the same way however often it is inspected.

use vstd::prelude::*;

use crate::machine::cpu::CPU;
use crate::machine::memory::MEMORY_SIZE;

verus! {

/// The memory that holds `program` from address zero on and zero in every
/// other byte.
pub open spec fn program_memory(program: Seq<u8>) -> Seq<u8> {
    Seq::new(
        MEMORY_SIZE as nat,
        |i: int|
            if i < program.len() {
                program[i]
            } else {
                0u8
            },
    )
}

/// The processor after `count` lookaheads in a row.
pub open spec fn peeked_times(cpu: CPU, memory: Seq<u8>, count: nat) -> CPU
    decreases count,
{
    if count == 0 {
        cpu
    } else {
        peeked_times(cpu.peeked(memory), memory, (count - 1) as nat)
    }
}

/// The processor after `count` steps.
pub open spec fn stepped_times(cpu: CPU, memory: Seq<u8>, count: nat) -> CPU
    decreases count,
{
    if count == 0 {
        cpu
    } else {
        stepped_times(cpu.stepped(memory), memory, (count - 1) as nat)
    }
}

/// The processor after as many steps as `peeks` is long, where `peeks[i]`
/// lookaheads come before step `i`.
pub open spec fn stepped_with_peeks(cpu: CPU, memory: Seq<u8>, peeks: Seq<nat>) -> CPU
    decreases peeks.len(),
{
    if peeks.len() == 0 {
        cpu
    } else {
        stepped_with_peeks(
            peeked_times(cpu, memory, peeks[0]).stepped(memory),
            memory,
            peeks.drop_first(),
        )
    }
}

/// A lookahead leaves the processor as it was: moving `pc` past an
/// instruction and back by the size of the same instruction gives the old
/// `pc`, also where `pc` wraps around the end of the address space.
pub proof fn lemma_peek_changes_nothing(cpu: CPU, memory: Seq<u8>)
    ensures
        cpu.peeked(memory) == cpu,
{
}

/// Any number of lookaheads in a row leaves the processor as it was, and
/// each of them sees the same instruction.
pub proof fn lemma_peeks_change_nothing(cpu: CPU, memory: Seq<u8>, count: nat)
    ensures
        peeked_times(cpu, memory, count) == cpu,
        peeked_times(cpu, memory, count).next_instruction(memory) == cpu.next_instruction(memory),
    decreases count,
{
    if count > 0 {
        lemma_peek_changes_nothing(cpu, memory);
        lemma_peeks_change_nothing(cpu.peeked(memory), memory, (count - 1) as nat);
    }
}

/// Stepping through a memory gives the same processor state however many
/// lookaheads come between the steps.
pub proof fn lemma_peeks_do_not_change_a_run(cpu: CPU, memory: Seq<u8>, peeks: Seq<nat>)
    ensures
        stepped_with_peeks(cpu, memory, peeks) == stepped_times(cpu, memory, peeks.len()),
    decreases peeks.len(),
{
    if peeks.len() > 0 {
        lemma_peeks_change_nothing(cpu, memory, peeks[0]);
        lemma_peeks_do_not_change_a_run(cpu.stepped(memory), memory, peeks.drop_first());
    }
}

/// A program that is written into a blank memory at address zero and then
/// stepped through from the initial processor state gives the same
/// registers however many lookaheads come between the steps.
pub proof fn lemma_program_run_ignores_peeks(program: Seq<u8>, peeks: Seq<nat>)
    ensures
        stepped_with_peeks(CPU::initial(), program_memory(program), peeks) == stepped_times(
            CPU::initial(),
            program_memory(program),
            peeks.len(),
        ),
{
    lemma_peeks_do_not_change_a_run(CPU::initial(), program_memory(program), peeks);
}

} // verus!
