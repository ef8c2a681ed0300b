//! The 8088 processor: memory, registers and flags, operand access and the
//! stack.
use vstd::prelude::*;
use crate::flags::{flags_of_word, Flags};
use crate::memory::{physical, Memory, Segment, BIOS_ROM_SIZE};
use crate::operand;
use crate::register::{self, Registers};
use crate::state::{wrap_add, wrap_sub, MachineState};

verus! {

pub struct CPU {
    pub memory: Memory,
    pub regs: Registers,
    pub flags: Flags,
    /// The physical address of the instruction being executed.
    pub current_address: usize,
}

impl View for CPU {
    type V = MachineState;

    open spec fn view(&self) -> MachineState {
        MachineState {
            regs: self.regs,
            flags: self.flags,
            es: self.memory.es,
            cs: self.memory.cs,
            ss: self.memory.ss,
            ds: self.memory.ds,
            ip: self.memory.ip,
            segment: self.memory.current_segment,
            ram: self.memory.ram@,
        }
    }
}

/// The value an 8-bit operand reads as.
pub open spec fn byte_value(s: MachineState, op: operand::Byte) -> u8 {
    match op {
        operand::Byte::Mem { addr, .. } => s.byte_at(s.segment, addr),
        operand::Byte::Reg(r) => s.regs.byte(r),
        operand::Byte::Imm(v) => v,
    }
}

/// The value a 16-bit operand reads as.
pub open spec fn word_value(s: MachineState, op: operand::Word) -> u16 {
    match op {
        operand::Word::Mem { addr, .. } => s.word_at(s.segment, addr),
        operand::Word::Reg(r) => s.regs.word(r),
        operand::Word::Seg(g) => s.seg(g),
        operand::Word::Imm(v) => v,
    }
}

/// The state after writing `v` to an 8-bit operand.
pub open spec fn with_byte_op(s: MachineState, op: operand::Byte, v: u8) -> MachineState {
    match op {
        operand::Byte::Mem { addr, .. } => s.store_byte(s.segment, addr, v),
        operand::Byte::Reg(r) => MachineState { regs: s.regs.with_byte(r, v), ..s },
        operand::Byte::Imm(_) => s,
    }
}

/// The state after writing `v` to a 16-bit operand.
pub open spec fn with_word_op(s: MachineState, op: operand::Word, v: u16) -> MachineState {
    match op {
        operand::Word::Mem { addr, .. } => s.store_word(s.segment, addr, v),
        operand::Word::Reg(r) => s.with_reg(r, v),
        operand::Word::Seg(g) => s.with_seg(g, v),
        operand::Word::Imm(_) => s,
    }
}

/// The state right after reset, with memory laid out from the ROM images.
pub open spec fn reset_state(s: MachineState) -> bool {
    &&& s.cs == 0xF000 && s.ip == 0xFFF0
    &&& s.ds == 0 && s.ss == 0 && s.es == 0
    &&& forall|r: register::Word| #[trigger] s.regs.word(r) == 0
    &&& s.flags == flags_of_word(0)
    &&& s.flags.word() == 0
}

impl CPU {
    pub open spec fn wf(&self) -> bool {
        self.memory.wf()
    }

    /// A processor at the reset vector, its memory laid out from the ROM
    /// images. The BIOS must be 64 KiB (see `memory::bios_size_ok`).
    pub fn init(bios_rom: &Vec<u8>, video_rom: &Vec<u8>, disk_rom: &Vec<u8>) -> (c: CPU)
        requires
            bios_rom@.len() == BIOS_ROM_SIZE,
        ensures
            c.wf(),
            reset_state(c@),
            c.memory.current_segment == Segment::DS,
            c.current_address == physical(0xF000, 0xFFF0),
            forall|a: int|
                0 <= a < crate::memory::MEMORY_SIZE ==> #[trigger] c.memory.ram@[a]
                    == crate::memory::boot_byte(video_rom@, disk_rom@, bios_rom@, a),
    {
        let memory = Memory::new(bios_rom, video_rom, disk_rom);
        let current_address = memory.get_current_address();
        CPU { memory, regs: Registers::new(), flags: Flags::new(), current_address }
    }

    /// Writes AL: where the value of an 8-bit port read lands.
    pub fn set_al(&mut self, result: u8)
        ensures
            final(self)@ == (MachineState {
                regs: old(self).regs.with_byte(register::Byte::AL, result),
                ..old(self)@
            }),
            final(self).memory.ram == old(self).memory.ram,
    {
        self.regs.set_byte(&register::Byte::AL, result);
    }

    /// Writes AX: where the value of a 16-bit port read lands.
    pub fn set_ax(&mut self, result: u16)
        ensures
            final(self)@ == old(self)@.with_reg(register::Word::AX, result),
            final(self).memory.ram == old(self).memory.ram,
    {
        self.regs.set_word(&register::Word::AX, result);
    }

    pub fn read_byte(&self, op: &operand::Byte) -> (r: u8)
        requires
            self.wf(),
        ensures
            r == byte_value(self@, *op),
    {
        match op {
            operand::Byte::Mem { addr, .. } => self.memory.get_byte(*addr),
            operand::Byte::Reg(reg) => self.regs.get_byte(reg),
            operand::Byte::Imm(imm) => *imm,
        }
    }

    pub fn read_word(&self, op: &operand::Word) -> (r: u16)
        requires
            self.wf(),
        ensures
            r == word_value(self@, *op),
    {
        match op {
            operand::Word::Mem { addr, .. } => self.memory.get_word(*addr),
            operand::Word::Reg(reg) => self.regs.get_word(reg),
            operand::Word::Seg(seg) => self.memory.get_seg(seg),
            operand::Word::Imm(imm) => *imm,
        }
    }

    /// Writes an 8-bit operand; an immediate cannot be written.
    pub fn write_byte(&mut self, op: &operand::Byte, value: u8)
        requires
            old(self).wf(),
            op.writable(),
        ensures
            final(self).wf(),
            final(self)@ == with_byte_op(old(self)@, *op, value),
    {
        match op {
            operand::Byte::Mem { addr, .. } => self.memory.set_byte(*addr, value),
            operand::Byte::Reg(reg) => self.regs.set_byte(reg, value),
            operand::Byte::Imm(_) => {},
        }
    }

    /// Writes a 16-bit operand; an immediate cannot be written.
    pub fn write_word(&mut self, op: &operand::Word, value: u16)
        requires
            old(self).wf(),
            op.writable(),
        ensures
            final(self).wf(),
            final(self)@ == with_word_op(old(self)@, *op, value),
    {
        match op {
            operand::Word::Mem { addr, .. } => self.store_word(*addr, value),
            operand::Word::Reg(reg) => self.regs.set_word(reg, value),
            operand::Word::Seg(seg) => self.memory.set_seg(seg, value),
            operand::Word::Imm(_) => {},
        }
    }

    /// Writes a word at an offset of the latched segment.
    fn store_word(&mut self, offset: u16, value: u16)
        requires
            old(self).wf(),
        ensures
            final(self).wf(),
            final(self)@ == old(self)@.store_word(old(self)@.segment, offset, value),
    {
        let ghost s0 = self@;
        self.memory.set_word(offset, value);
        assert(self@.ram =~= s0.store_word(s0.segment, offset, value).ram);
    }

    /// Lowers SP by two and stores `value` at `SS:SP`.
    pub fn push(&mut self, value: u16)
        requires
            old(self).wf(),
        ensures
            final(self).wf(),
            final(self)@ == old(self)@.push(value),
    {
        self.memory.current_segment = Segment::SS;
        self.regs.sp = self.regs.sp.wrapping_sub(2);
        self.memory.set_word(self.regs.sp, value);
    }

    /// Loads the word at `SS:SP` and raises SP by two.
    pub fn pop(&mut self) -> (r: u16)
        requires
            old(self).wf(),
        ensures
            final(self).wf(),
            r == old(self)@.top(),
            final(self)@ == old(self)@.pop(),
    {
        self.memory.current_segment = Segment::SS;
        let value = self.memory.get_word(self.regs.sp);
        self.regs.sp = self.regs.sp.wrapping_add(2);
        value
    }
}

/// A value pushed and then popped comes back, and SP returns to where it was.
pub proof fn lemma_push_pop(s: MachineState, v: u16)
    requires
        s.ram.len() == crate::memory::MEMORY_SIZE,
    ensures
        s.push(v).top() == v,
        s.push(v).pop().regs.sp == s.regs.sp,
        s.push(v).pop().regs == s.regs,
{
    let sp = wrap_sub(s.regs.sp, 2);
    let seg = s.ss;
    let lo = physical(seg, sp);
    let hi = physical(seg, crate::memory::next_offset(sp));
    crate::memory::lemma_offsets_distinct(seg, sp);
    assert(lo != hi);
    assert(wrap_add(sp, 2) == s.regs.sp);
}

} // verus!
