//! Flag control instructions and the stack instructions that move flags and
//! operands.
use vstd::prelude::*;
use crate::cpu::{with_word_op, word_value, CPU};
use crate::flags::{flags_of_word, Flags};
use crate::operand;
use crate::register;
use crate::state::MachineState;

verus! {

/// CMC: complements carry.
pub fn cmc(cpu: &mut CPU) -> (r: usize)
    ensures
        final(cpu)@ == old(cpu)@.with_flags(Flags { carry: !old(cpu).flags.carry, ..old(cpu).flags }),
        final(cpu).memory.ram == old(cpu).memory.ram,
        r == 2,
{
    cpu.flags.carry = !cpu.flags.carry;
    2
}

/// CLC: clears carry.
pub fn clc(cpu: &mut CPU) -> (r: usize)
    ensures
        final(cpu)@ == old(cpu)@.with_flags(Flags { carry: false, ..old(cpu).flags }),
        final(cpu).memory.ram == old(cpu).memory.ram,
        r == 2,
{
    cpu.flags.carry = false;
    2
}

/// STC: sets carry.
pub fn stc(cpu: &mut CPU) -> (r: usize)
    ensures
        final(cpu)@ == old(cpu)@.with_flags(Flags { carry: true, ..old(cpu).flags }),
        final(cpu).memory.ram == old(cpu).memory.ram,
        r == 2,
{
    cpu.flags.carry = true;
    2
}

/// CLI: disables maskable interrupts.
pub fn cli(cpu: &mut CPU) -> (r: usize)
    ensures
        final(cpu)@ == old(cpu)@.with_flags(Flags { interrupt: false, ..old(cpu).flags }),
        final(cpu).memory.ram == old(cpu).memory.ram,
        r == 2,
{
    cpu.flags.interrupt = false;
    2
}

/// STI: enables maskable interrupts.
pub fn sti(cpu: &mut CPU) -> (r: usize)
    ensures
        final(cpu)@ == old(cpu)@.with_flags(Flags { interrupt: true, ..old(cpu).flags }),
        final(cpu).memory.ram == old(cpu).memory.ram,
        r == 2,
{
    cpu.flags.interrupt = true;
    2
}

/// CLD: string instructions step upwards.
pub fn cld(cpu: &mut CPU) -> (r: usize)
    ensures
        final(cpu)@ == old(cpu)@.with_flags(Flags { direction: false, ..old(cpu).flags }),
        final(cpu).memory.ram == old(cpu).memory.ram,
        r == 2,
{
    cpu.flags.direction = false;
    2
}

/// STD: string instructions step downwards.
pub fn set_direction(cpu: &mut CPU) -> (r: usize)
    ensures
        final(cpu)@ == old(cpu)@.with_flags(Flags { direction: true, ..old(cpu).flags }),
        final(cpu).memory.ram == old(cpu).memory.ram,
        r == 2,
{
    cpu.flags.direction = true;
    2
}

/// Whether an operand may be pushed or popped: any but an immediate.
pub open spec fn stack_operand(op: operand::Word) -> bool {
    !(op is Imm)
}

/// PUSH: pushes the value of an operand.
pub fn push(cpu: &mut CPU, op: operand::Word) -> (r: usize)
    requires
        old(cpu).wf(),
        stack_operand(op),
    ensures
        final(cpu).wf(),
        final(cpu)@ == old(cpu)@.push(word_value(old(cpu)@, op)),
        r == match op {
            operand::Word::Seg(_) => 14,
            operand::Word::Reg(_) => 15,
            operand::Word::Mem { cycles, .. } => 24 + cycles,
            operand::Word::Imm(_) => 0,
        },
{
    let value = cpu.read_word(&op);
    cpu.push(value);
    match op {
        operand::Word::Seg(_) => 14,
        operand::Word::Reg(_) => 15,
        operand::Word::Mem { cycles, .. } => 24 + cycles as usize,
        operand::Word::Imm(_) => 0,
    }
}

/// PUSHF: pushes the flag word.
pub fn pushf(cpu: &mut CPU) -> (r: usize)
    requires
        old(cpu).wf(),
    ensures
        final(cpu).wf(),
        final(cpu)@ == old(cpu)@.push(old(cpu).flags.word()),
        r == 14,
{
    let value = cpu.flags.get_bits_word();
    cpu.push(value);
    14
}

/// POP: pops a word into an operand. A memory operand is addressed in the
/// segment latched before the pop.
pub fn pop(cpu: &mut CPU, op: operand::Word) -> (r: usize)
    requires
        old(cpu).wf(),
        stack_operand(op),
    ensures
        final(cpu).wf(),
        final(cpu)@ == with_word_op(
            MachineState { segment: old(cpu)@.segment, ..old(cpu)@.pop() },
            op,
            old(cpu)@.top(),
        ),
        r == match op {
            operand::Word::Seg(_) => 12,
            operand::Word::Reg(_) => 12,
            operand::Word::Mem { cycles, .. } => 25 + cycles,
            operand::Word::Imm(_) => 0,
        },
{
    let latched = cpu.memory.current_segment;
    let value = cpu.pop();
    cpu.memory.current_segment = latched;
    cpu.write_word(&op, value);
    match op {
        operand::Word::Seg(_) => 12,
        operand::Word::Reg(_) => 12,
        operand::Word::Mem { cycles, .. } => 25 + cycles as usize,
        operand::Word::Imm(_) => 0,
    }
}

/// POPF: pops the flag word.
pub fn popf(cpu: &mut CPU) -> (r: usize)
    requires
        old(cpu).wf(),
    ensures
        final(cpu).wf(),
        final(cpu)@ == old(cpu)@.pop().with_flags(flags_of_word(old(cpu)@.top())),
        r == 12,
{
    let value = cpu.pop();
    cpu.flags.set_bits_word(value);
    12
}

/// LAHF: loads AH from the low flag byte.
pub fn lahf(cpu: &mut CPU) -> (r: usize)
    ensures
        final(cpu)@ == (MachineState {
            regs: old(cpu).regs.with_byte(register::Byte::AH, (old(cpu).flags.word() % 256) as u8),
            ..old(cpu)@
        }),
        final(cpu).memory.ram == old(cpu).memory.ram,
        r == 4,
{
    let value = cpu.flags.get_bits_byte();
    cpu.regs.set_byte(&register::Byte::AH, value);
    4
}

/// SAHF: loads carry, parity, adjust, zero and sign from AH.
pub fn sahf(cpu: &mut CPU) -> (r: usize)
    ensures
        ({
            let f = flags_of_word(old(cpu).regs.byte(register::Byte::AH) as u16);
            final(cpu)@ == old(cpu)@.with_flags(
                Flags {
                    carry: f.carry,
                    parity: f.parity,
                    adjust: f.adjust,
                    zero: f.zero,
                    sign: f.sign,
                    ..old(cpu).flags
                },
            )
        }),
        final(cpu).memory.ram == old(cpu).memory.ram,
        r == 4,
{
    let value = cpu.regs.get_byte(&register::Byte::AH);
    cpu.flags.set_bits_byte(value);
    4
}

} // verus!
