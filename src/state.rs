//! The architectural state of the machine as a mathematical value: what the
//! contracts of the instruction engine speak of.
use vstd::prelude::*;
use crate::flags::Flags;
use crate::memory::{le_word, next_offset, physical, Segment};
use crate::register::{Registers, Word};

verus! {

pub struct MachineState {
    pub regs: Registers,
    pub flags: Flags,
    pub es: u16,
    pub cs: u16,
    pub ss: u16,
    pub ds: u16,
    pub ip: u16,
    /// The segment latch that memory accesses go through.
    pub segment: Segment,
    pub ram: Seq<u8>,
}

/// `v - d` on 16 bits, wrapping.
pub open spec fn wrap_sub(v: u16, d: u16) -> u16 {
    ((v - d + 0x1_0000) % 0x1_0000) as u16
}

/// `v + d` on 16 bits, wrapping.
pub open spec fn wrap_add(v: u16, d: u16) -> u16 {
    ((v + d) % 0x1_0000) as u16
}

impl MachineState {
    pub open spec fn seg(self, s: Segment) -> u16 {
        match s {
            Segment::ES => self.es,
            Segment::CS => self.cs,
            Segment::SS => self.ss,
            Segment::DS => self.ds,
        }
    }

    pub open spec fn with_seg(self, s: Segment, v: u16) -> MachineState {
        match s {
            Segment::ES => MachineState { es: v, ..self },
            Segment::CS => MachineState { cs: v, ..self },
            Segment::SS => MachineState { ss: v, ..self },
            Segment::DS => MachineState { ds: v, ..self },
        }
    }

    pub open spec fn with_reg(self, r: Word, v: u16) -> MachineState {
        MachineState { regs: self.regs.with_word(r, v), ..self }
    }

    pub open spec fn with_flags(self, f: Flags) -> MachineState {
        MachineState { flags: f, ..self }
    }

    pub open spec fn with_ip(self, ip: u16) -> MachineState {
        MachineState { ip, ..self }
    }

    pub open spec fn with_segment(self, s: Segment) -> MachineState {
        MachineState { segment: s, ..self }
    }

    /// The byte at `s:off`.
    pub open spec fn byte_at(self, s: Segment, off: u16) -> u8 {
        self.ram[physical(self.seg(s), off)]
    }

    /// The little-endian word at `s:off`; the high byte comes from the next
    /// offset of the same segment.
    pub open spec fn word_at(self, s: Segment, off: u16) -> u16 {
        le_word(self.byte_at(s, off), self.byte_at(s, next_offset(off)))
    }

    /// The word at a physical address, the high byte wrapping at 20 bits.
    pub open spec fn word_at_addr(self, a: int) -> u16 {
        le_word(self.ram[a], self.ram[(a + 1) % 0x10_0000])
    }

    /// Writes a byte at `s:off`, leaving the latch on `s`.
    pub open spec fn store_byte(self, s: Segment, off: u16, v: u8) -> MachineState {
        MachineState { ram: self.ram.update(physical(self.seg(s), off), v), segment: s, ..self }
    }

    /// Writes a word at `s:off`, leaving the latch on `s`.
    pub open spec fn store_word(self, s: Segment, off: u16, v: u16) -> MachineState {
        MachineState {
            ram: self.ram.update(physical(self.seg(s), off), (v % 256) as u8).update(
                physical(self.seg(s), next_offset(off)),
                (v / 256) as u8,
            ),
            segment: s,
            ..self
        }
    }

    /// SP lowered by two and `v` stored at `SS:SP`.
    pub open spec fn push(self, v: u16) -> MachineState {
        let sp = wrap_sub(self.regs.sp, 2);
        self.with_reg(Word::SP, sp).store_word(Segment::SS, sp, v)
    }

    /// The word at `SS:SP`.
    pub open spec fn top(self) -> u16 {
        self.word_at(Segment::SS, self.regs.sp)
    }

    /// SP raised by two, the latch on SS.
    pub open spec fn pop(self) -> MachineState {
        self.with_reg(Word::SP, wrap_add(self.regs.sp, 2)).with_segment(Segment::SS)
    }
}

} // verus!
