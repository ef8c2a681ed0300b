//! Control transfer: jumps, calls, returns, interrupts and loops.
use vstd::prelude::*;
use crate::cpu::{word_value, CPU};
use crate::flags::{flags_of_word, Flags};
use crate::memory::{next_offset, Segment};
use crate::operand;
use crate::register;
use crate::state::{wrap_add, wrap_sub, MachineState};

verus! {

/// `ip` moved by a signed displacement, wrapping on 16 bits.
pub open spec fn rel_target(ip: u16, rel: int) -> u16 {
    ((ip + rel + 0x2_0000) % 0x1_0000) as u16
}

/// The offset two past `off`, wrapping inside the segment.
pub open spec fn offset_plus_two(off: u16) -> u16 {
    wrap_add(off, 2)
}

/// The state after entering the handler of interrupt `index`: the vector is
/// read from the table at physical `index * 4` (offset, then segment),
/// flags, CS and IP are pushed, interrupts and trap cleared, and CS:IP
/// loaded from the vector.
pub open spec fn interrupt_entry(s: MachineState, index: u8) -> MachineState {
    let s1 = s.push(s.flags.word());
    let s2 = s1.with_flags(Flags { interrupt: false, trap: false, ..s1.flags });
    let s3 = s2.push(s2.cs);
    let s4 = s3.push(s3.ip);
    s4.with_ip(s.word_at_addr(index * 4)).with_seg(Segment::CS, s.word_at_addr(index * 4 + 2))
}

/// Entering an interrupt handler loads CS:IP from the vector as it stood
/// before the call, clears IF, and lowers SP by six.
pub proof fn lemma_interrupt_vector(s: MachineState, index: u8)
    ensures
        interrupt_entry(s, index).ip == s.word_at_addr(index * 4),
        interrupt_entry(s, index).cs == s.word_at_addr(index * 4 + 2),
        !interrupt_entry(s, index).flags.interrupt,
        interrupt_entry(s, index).regs.sp == wrap_sub(wrap_sub(wrap_sub(s.regs.sp, 2), 2), 2),
{
}

fn relative(ip: u16, rel: i16) -> (r: u16)
    ensures
        r == rel_target(ip, rel as int),
{
    ((ip as i32 + rel as i32 + 0x2_0000) % 0x1_0000) as u16
}

/// JMP to an offset read from an operand.
pub fn jmp_word(cpu: &mut CPU, op: operand::Word) -> (r: usize)
    requires
        old(cpu).wf(),
    ensures
        final(cpu).wf(),
        final(cpu)@ == old(cpu)@.with_ip(word_value(old(cpu)@, op)),
        r == 15,
{
    let value = cpu.read_word(&op);
    cpu.memory.ip = value;
    15
}

/// JMP to a segment and an offset read from two operands.
pub fn jmp_addr(cpu: &mut CPU, segment: operand::Word, offset: operand::Word) -> (r: usize)
    requires
        old(cpu).wf(),
    ensures
        final(cpu).wf(),
        final(cpu)@ == old(cpu)@.with_ip(word_value(old(cpu)@, offset)).with_seg(
            Segment::CS,
            word_value(old(cpu)@, segment),
        ),
        r == 15,
{
    let seg = cpu.read_word(&segment);
    let off = cpu.read_word(&offset);
    cpu.memory.cs = seg;
    cpu.memory.ip = off;
    15
}

/// A short jump, taken when `condition` holds.
pub fn jmp_relative(cpu: &mut CPU, relative_offset: i8, condition: bool) -> (r: usize)
    ensures
        final(cpu).wf() == old(cpu).wf(),
        condition ==> final(cpu)@ == old(cpu)@.with_ip(
            rel_target(old(cpu).memory.ip, relative_offset as int),
        ),
        !condition ==> final(cpu)@ == old(cpu)@,
        r == (if condition { 16usize } else { 4 }),
{
    if condition {
        cpu.memory.ip = relative(cpu.memory.ip, relative_offset as i16);
        16
    } else {
        4
    }
}

/// A near jump by a 16-bit displacement.
pub fn jmp_relative_word(cpu: &mut CPU, relative_offset: i16) -> (r: usize)
    ensures
        final(cpu).wf() == old(cpu).wf(),
        final(cpu)@ == old(cpu)@.with_ip(rel_target(old(cpu).memory.ip, relative_offset as int)),
        r == 15,
{
    cpu.memory.ip = relative(cpu.memory.ip, relative_offset);
    15
}

/// JMP FAR through a memory operand that holds offset then segment.
pub fn jmp_far(cpu: &mut CPU, op: operand::Word) -> (r: usize)
    requires
        old(cpu).wf(),
        op is Mem,
    ensures
        final(cpu).wf(),
        ({
            let s = old(cpu)@;
            let a = op->addr;
            final(cpu)@ == s.with_ip(s.word_at(s.segment, a)).with_seg(
                Segment::CS,
                s.word_at(s.segment, offset_plus_two(a)),
            )
        }),
        r == 24 + op->cycles,
{
    match op {
        operand::Word::Mem { addr, cycles } => {
            let (segment, offset) = far_pointer(cpu, addr);
            cpu.memory.cs = segment;
            cpu.memory.ip = offset;
            24 + cycles as usize
        },
        _ => 0,
    }
}

/// CALL to an offset read from an operand.
pub fn call_word(cpu: &mut CPU, offset: operand::Word) -> (r: usize)
    requires
        old(cpu).wf(),
    ensures
        final(cpu).wf(),
        final(cpu)@ == old(cpu)@.push(old(cpu).memory.ip).with_ip(word_value(old(cpu)@, offset)),
        r == (if offset is Mem { 29 + offset->cycles } else { 21 }),
{
    let off_val = cpu.read_word(&offset);
    let ip = cpu.memory.ip;
    cpu.push(ip);
    cpu.memory.ip = off_val;
    match offset {
        operand::Word::Mem { cycles, .. } => 29 + cycles as usize,
        _ => 21,
    }
}

/// CALL by a displacement read from an operand.
pub fn call_relative_word(cpu: &mut CPU, offset: operand::Word) -> (r: usize)
    requires
        old(cpu).wf(),
    ensures
        final(cpu).wf(),
        final(cpu)@ == old(cpu)@.push(old(cpu).memory.ip).with_ip(
            rel_target(old(cpu).memory.ip, word_value(old(cpu)@, offset) as i16 as int),
        ),
        r == (if offset is Mem { 29 + offset->cycles } else { 21 }),
{
    let relative_offset = cpu.read_word(&offset) as i16;
    let ip = cpu.memory.ip;
    let target = relative(ip, relative_offset);
    cpu.push(ip);
    cpu.memory.ip = target;
    match offset {
        operand::Word::Mem { cycles, .. } => 29 + cycles as usize,
        _ => 21,
    }
}

/// The state after a far call to `seg:off`: CS and then IP pushed.
pub open spec fn far_call(s: MachineState, seg: u16, off: u16) -> MachineState {
    let s1 = s.push(s.cs);
    s1.push(s1.ip).with_ip(off).with_seg(Segment::CS, seg)
}

/// The segment and offset of a far pointer at an offset of the latched
/// segment: offset first, then segment.
fn far_pointer(cpu: &CPU, addr: u16) -> (r: (u16, u16))
    requires
        cpu.wf(),
    ensures
        r.0 == cpu@.word_at(cpu@.segment, offset_plus_two(addr)),
        r.1 == cpu@.word_at(cpu@.segment, addr),
{
    let offset = cpu.memory.get_word(addr);
    let segment = cpu.memory.get_word(addr.wrapping_add(2));
    (segment, offset)
}

fn far_call_to(cpu: &mut CPU, seg: u16, off: u16)
    requires
        old(cpu).wf(),
    ensures
        final(cpu).wf(),
        final(cpu)@ == far_call(old(cpu)@, seg, off),
{
    let cs = cpu.memory.cs;
    cpu.push(cs);
    let ip = cpu.memory.ip;
    cpu.push(ip);
    cpu.memory.cs = seg;
    cpu.memory.ip = off;
}

/// CALL to a segment and an offset read from two operands.
pub fn call_addr(cpu: &mut CPU, segment: operand::Word, offset: operand::Word) -> (r: usize)
    requires
        old(cpu).wf(),
    ensures
        final(cpu).wf(),
        final(cpu)@ == far_call(
            old(cpu)@,
            word_value(old(cpu)@, segment),
            word_value(old(cpu)@, offset),
        ),
        r == 36,
{
    let seg = cpu.read_word(&segment);
    let off = cpu.read_word(&offset);
    far_call_to(cpu, seg, off);
    36
}

/// CALL FAR through a memory operand that holds offset then segment.
pub fn call_far(cpu: &mut CPU, op: operand::Word) -> (r: usize)
    requires
        old(cpu).wf(),
        op is Mem,
    ensures
        final(cpu).wf(),
        ({
            let s = old(cpu)@;
            let a = op->addr;
            final(cpu)@ == far_call(
                s,
                s.word_at(s.segment, offset_plus_two(a)),
                s.word_at(s.segment, a),
            )
        }),
        r == 53 + op->cycles,
{
    match op {
        operand::Word::Mem { addr, cycles } => {
            let (segment, offset) = far_pointer(cpu, addr);
            far_call_to(cpu, segment, offset);
            53 + cycles as usize
        },
        _ => 0,
    }
}

/// RET: pops IP, then adds the optional delta to SP.
pub fn ret(cpu: &mut CPU, add_sp: Option<u16>) -> (r: usize)
    requires
        old(cpu).wf(),
    ensures
        final(cpu).wf(),
        ({
            let s = old(cpu)@.pop().with_ip(old(cpu)@.top());
            match add_sp {
                Some(n) => final(cpu)@ == s.with_reg(register::Word::SP, wrap_add(s.regs.sp, n)),
                None => final(cpu)@ == s,
            }
        }),
        r == (if add_sp is Some { 24usize } else { 20 }),
{
    cpu.memory.ip = cpu.pop();
    if let Some(num) = add_sp {
        cpu.regs.sp = cpu.regs.sp.wrapping_add(num);
        24
    } else {
        20
    }
}

/// The state after a far return: IP and then CS popped.
pub open spec fn far_return(s: MachineState) -> MachineState {
    let s1 = s.pop().with_ip(s.top());
    let s2 = s1.pop();
    s2.with_seg(Segment::CS, s1.top())
}

/// RETF: pops IP and CS, then adds the optional delta to SP.
pub fn retf(cpu: &mut CPU, add_sp: Option<u16>) -> (r: usize)
    requires
        old(cpu).wf(),
    ensures
        final(cpu).wf(),
        ({
            let s = far_return(old(cpu)@);
            match add_sp {
                Some(n) => final(cpu)@ == s.with_reg(register::Word::SP, wrap_add(s.regs.sp, n)),
                None => final(cpu)@ == s,
            }
        }),
        r == (if add_sp is Some { 33usize } else { 34 }),
{
    cpu.memory.ip = cpu.pop();
    cpu.memory.cs = cpu.pop();
    if let Some(num) = add_sp {
        cpu.regs.sp = cpu.regs.sp.wrapping_add(num);
        33
    } else {
        34
    }
}

/// Enters the handler of interrupt `index`.
pub fn enter_interrupt(cpu: &mut CPU, index: u8) -> (r: usize)
    requires
        old(cpu).wf(),
    ensures
        final(cpu).wf(),
        final(cpu)@ == interrupt_entry(old(cpu)@, index),
        r == 72,
{
    let vector_ip = cpu.memory.get_word_at_addr(index as usize * 4);
    let vector_cs = cpu.memory.get_word_at_addr(index as usize * 4 + 2);
    let flags = cpu.flags.get_bits_word();
    cpu.push(flags);
    cpu.flags.interrupt = false;
    cpu.flags.trap = false;
    let cs = cpu.memory.cs;
    cpu.push(cs);
    let ip = cpu.memory.ip;
    cpu.push(ip);
    cpu.memory.ip = vector_ip;
    cpu.memory.cs = vector_cs;
    72
}

/// An interrupt requested by the interrupt controller.
pub fn hardware_int(cpu: &mut CPU, index: u8) -> (r: usize)
    requires
        old(cpu).wf(),
    ensures
        final(cpu).wf(),
        final(cpu)@ == interrupt_entry(old(cpu)@, index),
        r == 72,
{
    enter_interrupt(cpu, index)
}

/// INT n.
pub fn int_n(cpu: &mut CPU, index: u8) -> (r: usize)
    requires
        old(cpu).wf(),
    ensures
        final(cpu).wf(),
        final(cpu)@ == interrupt_entry(old(cpu)@, index),
        r == 72,
{
    enter_interrupt(cpu, index)
}

/// INTO: interrupt 4 when overflow is set.
pub fn into(cpu: &mut CPU) -> (r: usize)
    requires
        old(cpu).wf(),
    ensures
        final(cpu).wf(),
        old(cpu).flags.overflow ==> final(cpu)@ == interrupt_entry(old(cpu)@, 4) && r == 72,
        !old(cpu).flags.overflow ==> final(cpu)@ == old(cpu)@ && r == 4,
{
    if cpu.flags.overflow {
        enter_interrupt(cpu, 4)
    } else {
        4
    }
}

/// IRET: pops IP, CS and the flag word.
pub fn iret(cpu: &mut CPU) -> (r: usize)
    requires
        old(cpu).wf(),
    ensures
        final(cpu).wf(),
        ({
            let s = far_return(old(cpu)@);
            final(cpu)@ == s.pop().with_flags(flags_of_word(s.top()))
        }),
        r == 44,
{
    cpu.memory.ip = cpu.pop();
    cpu.memory.cs = cpu.pop();
    let flag_word = cpu.pop();
    cpu.flags.set_bits_word(flag_word);
    44
}

/// LOOP and its conditional forms: decrements CX, and takes the short jump
/// when CX is not zero and `condition` holds.
pub fn loop_relative(cpu: &mut CPU, relative_offset: i8, condition: bool) -> (r: usize)
    ensures
        final(cpu).wf() == old(cpu).wf(),
        ({
            let cx = wrap_sub(old(cpu).regs.cx, 1);
            let s = old(cpu)@.with_reg(register::Word::CX, cx);
            &&& (cx != 0 && condition) ==> final(cpu)@ == s.with_ip(
                rel_target(s.ip, relative_offset as int),
            ) && r == 18
            &&& (cx != 0 && !condition) ==> final(cpu)@ == s && r == 6
            &&& cx == 0 ==> final(cpu)@ == s && r == 6
        }),
{
    cpu.regs.cx = cpu.regs.cx.wrapping_sub(1);
    if cpu.regs.cx != 0 {
        jmp_relative(cpu, relative_offset, condition) + 2
    } else {
        6
    }
}

/// Entering an interrupt handler leaves the old flag word at SS:SP-2, the
/// old CS at SS:SP-4 and the old IP at SS:SP-6, with SP lowered by six.
pub proof fn lemma_interrupt_pushes(s: MachineState, index: u8)
    requires
        s.ram.len() == crate::memory::MEMORY_SIZE,
    ensures
        ({
            let t = interrupt_entry(s, index);
            let sp1 = wrap_sub(s.regs.sp, 2);
            let sp2 = wrap_sub(sp1, 2);
            let sp3 = wrap_sub(sp2, 2);
            &&& t.regs.sp == sp3
            &&& t.word_at(Segment::SS, sp1) == s.flags.word()
            &&& t.word_at(Segment::SS, sp2) == s.cs
            &&& t.word_at(Segment::SS, sp3) == s.ip
        }),
{
    let sp1 = wrap_sub(s.regs.sp, 2);
    let sp2 = wrap_sub(sp1, 2);
    let sp3 = wrap_sub(sp2, 2);
    let s1 = s.push(s.flags.word());
    let s2 = s1.with_flags(Flags { interrupt: false, trap: false, ..s1.flags });
    let s3 = s2.push(s2.cs);
    let s4 = s3.push(s3.ip);
    lemma_push_frame(s, s.flags.word());
    lemma_push_frame(s2, s2.cs);
    lemma_wrap_back(sp1);
    lemma_push_frame(s3, s3.ip);
    lemma_wrap_back(sp2);
    lemma_wrap_back2(sp1);
    lemma_entry_is_pushes(s, index, s4);
}

proof fn lemma_entry_is_pushes(s: MachineState, index: u8, s4: MachineState)
    requires
        ({
            let s1 = s.push(s.flags.word());
            let s2 = s1.with_flags(Flags { interrupt: false, trap: false, ..s1.flags });
            let s3 = s2.push(s2.cs);
            s4 == s3.push(s3.ip)
        }),
    ensures
        interrupt_entry(s, index).ram == s4.ram,
        interrupt_entry(s, index).ss == s4.ss,
        interrupt_entry(s, index).regs == s4.regs,
{
}

/// What a push does to the stack: the new word at the new SP, and the two
/// words above it kept.
proof fn lemma_push_frame(s: MachineState, v: u16)
    requires
        s.ram.len() == crate::memory::MEMORY_SIZE,
    ensures
        ({
            let t = s.push(v);
            let p = wrap_sub(s.regs.sp, 2);
            &&& t.regs.sp == p && t.ss == s.ss && t.cs == s.cs && t.ip == s.ip && t.flags == s.flags
            &&& t.ram.len() == s.ram.len()
            &&& t.word_at(Segment::SS, p) == v
            &&& t.word_at(Segment::SS, wrap_add(p, 2)) == s.word_at(Segment::SS, wrap_add(p, 2))
            &&& t.word_at(Segment::SS, wrap_add(p, 4)) == s.word_at(Segment::SS, wrap_add(p, 4))
        }),
{
    let p = wrap_sub(s.regs.sp, 2);
    crate::cpu::lemma_push_pop(s, v);
    lemma_push_keeps(s, v, wrap_add(p, 2));
    lemma_push_keeps(s, v, wrap_add(p, 4));
}

proof fn lemma_wrap_back(x: u16)
    ensures
        wrap_add(wrap_sub(x, 2), 2) == x,
{
}

proof fn lemma_wrap_back2(x: u16)
    ensures
        wrap_add(wrap_sub(wrap_sub(x, 2), 2), 4) == x,
{
}

/// A push leaves alone a stack word that does not overlap the pushed one.
proof fn lemma_push_keeps(s: MachineState, v: u16, off: u16)
    requires
        s.ram.len() == crate::memory::MEMORY_SIZE,
        off == wrap_add(wrap_sub(s.regs.sp, 2), 2) || off == wrap_add(wrap_sub(s.regs.sp, 2), 4),
    ensures
        s.push(v).word_at(Segment::SS, off) == s.word_at(Segment::SS, off),
        s.push(v).ss == s.ss,
{
    let p = wrap_sub(s.regs.sp, 2);
    let ss = s.ss;
    lemma_distinct_offsets(ss, off, p);
    lemma_distinct_offsets(ss, off, next_offset(p));
    lemma_distinct_offsets(ss, next_offset(off), p);
    lemma_distinct_offsets(ss, next_offset(off), next_offset(p));
}

proof fn lemma_distinct_offsets(seg: u16, a: u16, b: u16)
    requires
        a != b,
    ensures
        crate::memory::physical(seg, a) != crate::memory::physical(seg, b),
{
}

/// A far call followed by a far return comes back to the instruction after
/// the call, with CS and SP as they were.
#[verifier::rlimit(60)]
pub proof fn lemma_far_call_return(s: MachineState, seg: u16, off: u16)
    requires
        s.ram.len() == crate::memory::MEMORY_SIZE,
    ensures
        far_return(far_call(s, seg, off)).ip == s.ip,
        far_return(far_call(s, seg, off)).cs == s.cs,
        far_return(far_call(s, seg, off)).regs == s.regs,
{
    let s1 = s.push(s.cs);
    let s2 = s1.push(s1.ip);
    let c = far_call(s, seg, off);
    assert(c.ram == s2.ram);
    assert(c.ss == s.ss);
    crate::cpu::lemma_push_pop(s, s.cs);
    crate::cpu::lemma_push_pop(s1, s1.ip);
    assert(c.top() == s2.top());
    let r1 = c.pop().with_ip(c.top());
    assert(r1.ram == s2.ram);
    let sp1 = wrap_sub(s.regs.sp, 2);
    let sp2 = wrap_sub(sp1, 2);
    let lo = crate::memory::physical(s.ss, sp1);
    let hi = crate::memory::physical(s.ss, next_offset(sp1));
    let lo2 = crate::memory::physical(s.ss, sp2);
    let hi2 = crate::memory::physical(s.ss, next_offset(sp2));
    assert(lo != lo2 && lo != hi2 && hi != lo2 && hi != hi2);
    assert(r1.top() == s1.top());
}

} // verus!
