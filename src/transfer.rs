//! Data transfer: MOV, XCHG, LEA, LDS/LES, XLAT, and the CPU side of IN and
//! OUT.
use vstd::prelude::*;
use crate::cpu::{byte_value, with_byte_op, with_word_op, word_value, CPU};
use crate::memory::Segment;
use crate::operand;
use crate::register;
use crate::state::{wrap_add, MachineState};

verus! {

/// A port access that the CPU hands to the board.
#[derive(Clone, Copy, Debug, PartialEq, Eq, Structural)]
pub enum PortAccess {
    /// Read a byte into AL.
    InByte(u16),
    /// Read a word into AX.
    InWord(u16),
    OutByte(u16, u8),
    OutWord(u16, u16),
}

/// The effective-address penalty of a byte operand, zero when it is not in
/// memory.
pub open spec fn byte_ea(op: operand::Byte) -> int {
    match op {
        operand::Byte::Mem { cycles, .. } => cycles as int,
        _ => 0,
    }
}

/// The effective-address penalty of a word operand, zero when it is not in
/// memory.
pub open spec fn word_ea(op: operand::Word) -> int {
    match op {
        operand::Word::Mem { cycles, .. } => cycles as int,
        _ => 0,
    }
}

/// Clock cycles of a MOV: register to register 2, immediate to register 4,
/// memory to register 8, register to memory 9, immediate to memory 10, each
/// memory form plus its effective-address penalty.
pub open spec fn mov_cycles(dst_mem: bool, src_mem: bool, src_imm: bool, ea: int) -> int {
    if dst_mem {
        if src_imm {
            10 + ea
        } else {
            9 + ea
        }
    } else if src_mem {
        8 + ea
    } else if src_imm {
        4
    } else {
        2
    }
}

fn mov_cost(dst_mem: bool, src_mem: bool, src_imm: bool, ea: u16) -> (r: usize)
    ensures
        r == mov_cycles(dst_mem, src_mem, src_imm, ea as int),
{
    let ea = ea as usize;
    if dst_mem {
        if src_imm {
            10 + ea
        } else {
            9 + ea
        }
    } else if src_mem {
        8 + ea
    } else if src_imm {
        4
    } else {
        2
    }
}

fn byte_penalty(op: &operand::Byte) -> (r: u8)
    ensures
        r as int == byte_ea(*op),
{
    match op {
        operand::Byte::Mem { cycles, .. } => *cycles,
        _ => 0,
    }
}

fn word_penalty(op: &operand::Word) -> (r: u8)
    ensures
        r as int == word_ea(*op),
{
    match op {
        operand::Word::Mem { cycles, .. } => *cycles,
        _ => 0,
    }
}

/// MOV between 8-bit operands.
pub fn mov_byte(cpu: &mut CPU, set_op: operand::Byte, get_op: operand::Byte) -> (r: usize)
    requires
        old(cpu).wf(),
        set_op.writable(),
    ensures
        final(cpu).wf(),
        final(cpu)@ == with_byte_op(old(cpu)@, set_op, byte_value(old(cpu)@, get_op)),
        r == mov_cycles(set_op is Mem, get_op is Mem, get_op is Imm, byte_ea(set_op) + byte_ea(get_op)),
{
    let value = cpu.read_byte(&get_op);
    cpu.write_byte(&set_op, value);
    let ea = byte_penalty(&set_op) as u16 + byte_penalty(&get_op) as u16;
    mov_cost(
        matches!(set_op, operand::Byte::Mem { .. }),
        matches!(get_op, operand::Byte::Mem { .. }),
        matches!(get_op, operand::Byte::Imm(_)),
        ea,
    )
}

/// MOV between 16-bit operands.
pub fn mov_word(cpu: &mut CPU, set_op: operand::Word, get_op: operand::Word) -> (r: usize)
    requires
        old(cpu).wf(),
        set_op.writable(),
    ensures
        final(cpu).wf(),
        final(cpu)@ == with_word_op(old(cpu)@, set_op, word_value(old(cpu)@, get_op)),
        r == mov_cycles(set_op is Mem, get_op is Mem, get_op is Imm, word_ea(set_op) + word_ea(get_op)),
{
    let value = cpu.read_word(&get_op);
    cpu.write_word(&set_op, value);
    let ea = word_penalty(&set_op) as u16 + word_penalty(&get_op) as u16;
    mov_cost(
        matches!(set_op, operand::Word::Mem { .. }),
        matches!(get_op, operand::Word::Mem { .. }),
        matches!(get_op, operand::Word::Imm(_)),
        ea,
    )
}

/// XCHG of 8-bit operands: 4 cycles between registers, 17 plus the
/// effective-address penalty with memory.
pub fn xchg_byte(cpu: &mut CPU, set_op: operand::Byte, get_op: operand::Byte) -> (r: usize)
    requires
        old(cpu).wf(),
        set_op.writable(),
        get_op.writable(),
    ensures
        final(cpu).wf(),
        final(cpu)@ == with_byte_op(
            with_byte_op(old(cpu)@, set_op, byte_value(old(cpu)@, get_op)),
            get_op,
            byte_value(old(cpu)@, set_op),
        ),
        r == (if set_op is Mem || get_op is Mem { 17 + byte_ea(set_op) + byte_ea(get_op) } else { 4 }),
{
    let set_val = cpu.read_byte(&set_op);
    let get_val = cpu.read_byte(&get_op);
    cpu.write_byte(&set_op, get_val);
    cpu.write_byte(&get_op, set_val);
    if matches!(set_op, operand::Byte::Mem { .. }) || matches!(get_op, operand::Byte::Mem { .. }) {
        17 + byte_penalty(&set_op) as usize + byte_penalty(&get_op) as usize
    } else {
        4
    }
}

/// XCHG of 16-bit operands: 4 cycles between registers, 17 plus the
/// effective-address penalty with memory.
pub fn xchg_word(cpu: &mut CPU, set_op: operand::Word, get_op: operand::Word) -> (r: usize)
    requires
        old(cpu).wf(),
        set_op.writable(),
        get_op.writable(),
    ensures
        final(cpu).wf(),
        final(cpu)@ == with_word_op(
            with_word_op(old(cpu)@, set_op, word_value(old(cpu)@, get_op)),
            get_op,
            word_value(old(cpu)@, set_op),
        ),
        r == (if set_op is Mem || get_op is Mem { 17 + word_ea(set_op) + word_ea(get_op) } else { 4 }),
{
    let set_val = cpu.read_word(&set_op);
    let get_val = cpu.read_word(&get_op);
    cpu.write_word(&set_op, get_val);
    cpu.write_word(&get_op, set_val);
    if matches!(set_op, operand::Word::Mem { .. }) || matches!(get_op, operand::Word::Mem { .. }) {
        17 + word_penalty(&set_op) as usize + word_penalty(&get_op) as usize
    } else {
        4
    }
}

/// LEA: loads the effective address (the offset) of a memory operand.
pub fn lea_word(cpu: &mut CPU, set_op: operand::Word, get_op: operand::Word) -> (r: usize)
    requires
        old(cpu).wf(),
        set_op.writable(),
        get_op is Mem,
    ensures
        final(cpu).wf(),
        final(cpu)@ == with_word_op(old(cpu)@, set_op, get_op->addr),
        r == 2 + get_op->cycles,
{
    match get_op {
        operand::Word::Mem { addr, cycles } => {
            cpu.write_word(&set_op, addr);
            2 + cycles as usize
        },
        _ => 0,
    }
}

/// The state after LDS or LES: the register gets the word at the operand,
/// the segment register the word after it.
pub open spec fn load_far(s: MachineState, set_op: operand::Word, addr: u16, seg: Segment) -> MachineState {
    let t = with_word_op(s, set_op, s.word_at(s.segment, addr));
    t.with_seg(seg, t.word_at(t.segment, wrap_add(addr, 2)))
}

fn load_pointer(cpu: &mut CPU, set_op: operand::Word, get_op: operand::Word, seg: Segment) -> (r: usize)
    requires
        old(cpu).wf(),
        set_op.writable(),
        get_op is Mem,
    ensures
        final(cpu).wf(),
        final(cpu)@ == load_far(old(cpu)@, set_op, get_op->addr, seg),
        r == 24 + get_op->cycles,
{
    match get_op {
        operand::Word::Mem { addr, cycles } => {
            let value = cpu.read_word(&operand::Word::Mem { addr, cycles: 0 });
            cpu.write_word(&set_op, value);
            let ghost t = cpu@;
            let val2 = cpu.read_word(&operand::Word::Mem { addr: addr.wrapping_add(2), cycles: 0 });
            assert(val2 == t.word_at(t.segment, wrap_add(addr, 2)));
            cpu.memory.set_seg(&seg, val2);
            assert(cpu@ == t.with_seg(seg, val2));
            24 + cycles as usize
        },
        _ => 0,
    }
}

/// LES: loads a register and ES from a far pointer in memory.
pub fn les_word(cpu: &mut CPU, set_op: operand::Word, get_op: operand::Word) -> (r: usize)
    requires
        old(cpu).wf(),
        set_op.writable(),
        get_op is Mem,
    ensures
        final(cpu).wf(),
        final(cpu)@ == load_far(old(cpu)@, set_op, get_op->addr, Segment::ES),
        r == 24 + get_op->cycles,
{
    load_pointer(cpu, set_op, get_op, Segment::ES)
}

/// LDS: loads a register and DS from a far pointer in memory.
pub fn lds_word(cpu: &mut CPU, set_op: operand::Word, get_op: operand::Word) -> (r: usize)
    requires
        old(cpu).wf(),
        set_op.writable(),
        get_op is Mem,
    ensures
        final(cpu).wf(),
        final(cpu)@ == load_far(old(cpu)@, set_op, get_op->addr, Segment::DS),
        r == 24 + get_op->cycles,
{
    load_pointer(cpu, set_op, get_op, Segment::DS)
}

/// XLAT: AL becomes the byte at DS:BX+AL.
pub fn xlat(cpu: &mut CPU) -> (r: usize)
    requires
        old(cpu).wf(),
    ensures
        final(cpu).wf(),
        ({
            let s = old(cpu)@;
            let v = s.byte_at(Segment::DS, wrap_add(s.regs.bx, s.regs.byte(register::Byte::AL) as u16));
            final(cpu)@ == (MachineState {
                regs: s.regs.with_byte(register::Byte::AL, v),
                segment: Segment::DS,
                ..s
            })
        }),
        r == 11,
{
    let offset = cpu.regs.get_byte(&register::Byte::AL) as u16;
    cpu.memory.current_segment = Segment::DS;
    let value = cpu.memory.get_byte(cpu.regs.bx.wrapping_add(offset));
    cpu.regs.set_byte(&register::Byte::AL, value);
    11
}

/// IN AL from a port given by an immediate byte.
pub fn in_al_byte(cpu: &mut CPU, port: operand::Byte) -> (r: (usize, PortAccess))
    requires
        old(cpu).wf(),
    ensures
        final(cpu)@ == old(cpu)@,
        final(cpu).wf(),
        r == (14usize, PortAccess::InByte(byte_value(old(cpu)@, port) as u16)),
{
    let port_val = cpu.read_byte(&port) as u16;
    (14, PortAccess::InByte(port_val))
}

/// IN AL from the port in DX.
pub fn in_al_word(cpu: &mut CPU) -> (r: (usize, PortAccess))
    ensures
        final(cpu)@ == old(cpu)@,
        final(cpu).wf() == old(cpu).wf(),
        r == (12usize, PortAccess::InByte(old(cpu).regs.dx)),
{
    let port_val = cpu.regs.get_word(&register::Word::DX);
    (12, PortAccess::InByte(port_val))
}

/// IN AX from a port given by an immediate byte.
pub fn in_ax_byte(cpu: &mut CPU, port: operand::Byte) -> (r: (usize, PortAccess))
    requires
        old(cpu).wf(),
    ensures
        final(cpu)@ == old(cpu)@,
        final(cpu).wf(),
        r == (14usize, PortAccess::InWord(byte_value(old(cpu)@, port) as u16)),
{
    let port_val = cpu.read_byte(&port) as u16;
    (14, PortAccess::InWord(port_val))
}

/// IN AX from the port in DX.
pub fn in_ax_word(cpu: &mut CPU) -> (r: (usize, PortAccess))
    ensures
        final(cpu)@ == old(cpu)@,
        final(cpu).wf() == old(cpu).wf(),
        r == (12usize, PortAccess::InWord(old(cpu).regs.dx)),
{
    let port_val = cpu.regs.get_word(&register::Word::DX);
    (12, PortAccess::InWord(port_val))
}

/// OUT of AL to a port given by an immediate byte.
pub fn out_al_byte(cpu: &mut CPU, port: operand::Byte) -> (r: (usize, PortAccess))
    requires
        old(cpu).wf(),
    ensures
        final(cpu)@ == old(cpu)@,
        final(cpu).wf(),
        r == (14usize, PortAccess::OutByte(
            byte_value(old(cpu)@, port) as u16,
            old(cpu).regs.byte(register::Byte::AL),
        )),
{
    let port_val = cpu.read_byte(&port) as u16;
    let value = cpu.regs.get_byte(&register::Byte::AL);
    (14, PortAccess::OutByte(port_val, value))
}

/// OUT of AX to a port given by an immediate byte.
pub fn out_ax_byte(cpu: &mut CPU, port: operand::Byte) -> (r: (usize, PortAccess))
    requires
        old(cpu).wf(),
    ensures
        final(cpu)@ == old(cpu)@,
        final(cpu).wf(),
        r == (14usize, PortAccess::OutWord(byte_value(old(cpu)@, port) as u16, old(cpu).regs.ax)),
{
    let port_val = cpu.read_byte(&port) as u16;
    let value = cpu.regs.get_word(&register::Word::AX);
    (14, PortAccess::OutWord(port_val, value))
}

/// OUT of AL to the port in DX.
pub fn out_al_word(cpu: &mut CPU) -> (r: (usize, PortAccess))
    ensures
        final(cpu)@ == old(cpu)@,
        final(cpu).wf() == old(cpu).wf(),
        r == (12usize, PortAccess::OutByte(old(cpu).regs.dx, old(cpu).regs.byte(register::Byte::AL))),
{
    let port_val = cpu.regs.get_word(&register::Word::DX);
    let value = cpu.regs.get_byte(&register::Byte::AL);
    (12, PortAccess::OutByte(port_val, value))
}

/// OUT of AX to the port in DX.
pub fn out_ax_word(cpu: &mut CPU) -> (r: (usize, PortAccess))
    ensures
        final(cpu)@ == old(cpu)@,
        final(cpu).wf() == old(cpu).wf(),
        r == (12usize, PortAccess::OutWord(old(cpu).regs.dx, old(cpu).regs.ax)),
{
    let port_val = cpu.regs.get_word(&register::Word::DX);
    let value = cpu.regs.get_word(&register::Word::AX);
    (12, PortAccess::OutWord(port_val, value))
}

} // verus!
