//! Decoded instruction operands.
use vstd::prelude::*;
use crate::memory::Segment;
use crate::register;

verus! {

/// An 8-bit operand.
#[derive(Clone, Copy, Debug, PartialEq, Eq, Structural)]
pub enum Byte {
    /// A memory byte at an offset of the current segment; `cycles` is the
    /// effective-address penalty.
    Mem { addr: u16, cycles: u8 },
    Reg(register::Byte),
    Imm(u8),
}

/// A 16-bit operand.
#[derive(Clone, Copy, Debug, PartialEq, Eq, Structural)]
pub enum Word {
    /// A memory word at an offset of the current segment; `cycles` is the
    /// effective-address penalty.
    Mem { addr: u16, cycles: u8 },
    Reg(register::Word),
    Seg(Segment),
    Imm(u16),
}

impl Byte {
    /// Whether the operand can be written.
    pub open spec fn writable(self) -> bool {
        !(self is Imm)
    }
}

impl Word {
    /// Whether the operand can be written.
    pub open spec fn writable(self) -> bool {
        !(self is Imm)
    }
}

} // verus!
