//! The 8088 register file: four general registers with addressable halves,
//! and the pointer and index registers.
use vstd::prelude::*;

verus! {

/// The eight 8-bit register halves.
#[derive(Clone, Copy, Debug, PartialEq, Eq, Structural)]
pub enum Byte {
    AL,
    CL,
    DL,
    BL,
    AH,
    CH,
    DH,
    BH,
}

/// The eight 16-bit general, pointer and index registers.
#[derive(Clone, Copy, Debug, PartialEq, Eq, Structural)]
pub enum Word {
    AX,
    CX,
    DX,
    BX,
    SP,
    BP,
    SI,
    DI,
}

/// The low byte of a 16-bit value.
pub open spec fn low_of(v: u16) -> u8 {
    (v % 256) as u8
}

/// The high byte of a 16-bit value.
pub open spec fn high_of(v: u16) -> u8 {
    (v / 256) as u8
}

/// The 16-bit value whose high byte is `high` and whose low byte is `low`.
pub open spec fn join_bytes(high: u8, low: u8) -> u16 {
    (high * 256 + low) as u16
}

pub fn get_low(v: u16) -> (r: u8)
    ensures
        r == low_of(v),
{
    (v % 256) as u8
}

pub fn get_high(v: u16) -> (r: u8)
    ensures
        r == high_of(v),
{
    (v / 256) as u8
}

/// `v` with its low byte replaced; the high byte is kept.
pub fn set_low(v: &mut u16, low: u8)
    ensures
        *final(v) == join_bytes(high_of(*old(v)), low),
{
    let high = get_high(*v);
    *v = high as u16 * 256 + low as u16;
}

/// `v` with its high byte replaced; the low byte is kept.
pub fn set_high(v: &mut u16, high: u8)
    ensures
        *final(v) == join_bytes(high, low_of(*old(v))),
{
    let low = get_low(*v);
    *v = high as u16 * 256 + low as u16;
}

/// The word register that holds a byte half.
pub open spec fn parent_of(reg: Byte) -> Word {
    match reg {
        Byte::AL | Byte::AH => Word::AX,
        Byte::CL | Byte::CH => Word::CX,
        Byte::DL | Byte::DH => Word::DX,
        Byte::BL | Byte::BH => Word::BX,
    }
}

/// Whether a byte register names the high half of its word register.
pub open spec fn is_high(reg: Byte) -> bool {
    match reg {
        Byte::AH | Byte::CH | Byte::DH | Byte::BH => true,
        _ => false,
    }
}

#[derive(Clone, Copy, Debug, PartialEq, Eq, Structural)]
pub struct Registers {
    pub ax: u16,
    pub cx: u16,
    pub dx: u16,
    pub bx: u16,
    pub sp: u16,
    pub bp: u16,
    pub si: u16,
    pub di: u16,
}

impl Registers {
    /// The value of a word register.
    pub open spec fn word(self, reg: Word) -> u16 {
        match reg {
            Word::AX => self.ax,
            Word::CX => self.cx,
            Word::DX => self.dx,
            Word::BX => self.bx,
            Word::SP => self.sp,
            Word::BP => self.bp,
            Word::SI => self.si,
            Word::DI => self.di,
        }
    }

    /// The value of a byte register: a half of its word register.
    pub open spec fn byte(self, reg: Byte) -> u8 {
        let w = self.word(parent_of(reg));
        if is_high(reg) {
            high_of(w)
        } else {
            low_of(w)
        }
    }

    /// The register file with one word register replaced.
    pub open spec fn with_word(self, reg: Word, v: u16) -> Registers {
        match reg {
            Word::AX => Registers { ax: v, ..self },
            Word::CX => Registers { cx: v, ..self },
            Word::DX => Registers { dx: v, ..self },
            Word::BX => Registers { bx: v, ..self },
            Word::SP => Registers { sp: v, ..self },
            Word::BP => Registers { bp: v, ..self },
            Word::SI => Registers { si: v, ..self },
            Word::DI => Registers { di: v, ..self },
        }
    }

    /// The register file with one byte half replaced, the other half kept.
    pub open spec fn with_byte(self, reg: Byte, v: u8) -> Registers {
        let w = self.word(parent_of(reg));
        let nw = if is_high(reg) {
            join_bytes(v, low_of(w))
        } else {
            join_bytes(high_of(w), v)
        };
        self.with_word(parent_of(reg), nw)
    }

    /// All registers zero.
    pub fn new() -> (r: Registers)
        ensures
            forall|reg: Word| #[trigger] r.word(reg) == 0,
    {
        Registers { ax: 0, cx: 0, dx: 0, bx: 0, sp: 0, bp: 0, si: 0, di: 0 }
    }

    pub fn set_byte(&mut self, reg: &Byte, value: u8)
        ensures
            *final(self) == old(self).with_byte(*reg, value),
    {
        match reg {
            Byte::AL => set_low(&mut self.ax, value),
            Byte::CL => set_low(&mut self.cx, value),
            Byte::DL => set_low(&mut self.dx, value),
            Byte::BL => set_low(&mut self.bx, value),
            Byte::AH => set_high(&mut self.ax, value),
            Byte::CH => set_high(&mut self.cx, value),
            Byte::DH => set_high(&mut self.dx, value),
            Byte::BH => set_high(&mut self.bx, value),
        }
    }

    pub fn get_byte(&self, reg: &Byte) -> (r: u8)
        ensures
            r == self.byte(*reg),
    {
        match reg {
            Byte::AL => get_low(self.ax),
            Byte::CL => get_low(self.cx),
            Byte::DL => get_low(self.dx),
            Byte::BL => get_low(self.bx),
            Byte::AH => get_high(self.ax),
            Byte::CH => get_high(self.cx),
            Byte::DH => get_high(self.dx),
            Byte::BH => get_high(self.bx),
        }
    }

    pub fn set_word(&mut self, reg: &Word, value: u16)
        ensures
            *final(self) == old(self).with_word(*reg, value),
    {
        match reg {
            Word::AX => self.ax = value,
            Word::CX => self.cx = value,
            Word::DX => self.dx = value,
            Word::BX => self.bx = value,
            Word::SP => self.sp = value,
            Word::BP => self.bp = value,
            Word::SI => self.si = value,
            Word::DI => self.di = value,
        }
    }

    pub fn get_word(&self, reg: &Word) -> (r: u16)
        ensures
            r == self.word(*reg),
    {
        match reg {
            Word::AX => self.ax,
            Word::CX => self.cx,
            Word::DX => self.dx,
            Word::BX => self.bx,
            Word::SP => self.sp,
            Word::BP => self.bp,
            Word::SI => self.si,
            Word::DI => self.di,
        }
    }
}

/// Writing the low and then the high half of a general register leaves the
/// register equal to `(b << 8) | a`, and each half reads back as written.
pub proof fn lemma_half_aliasing(regs: Registers, low: Byte, high: Byte, a: u8, b: u8)
    requires
        !is_high(low),
        is_high(high),
        parent_of(low) == parent_of(high),
    ensures
        ({
            let after = regs.with_byte(low, a).with_byte(high, b);
            &&& after.word(parent_of(low)) == b * 256 + a
            &&& after.word(parent_of(low)) == ((b as u16) << 8) | (a as u16)
            &&& after.byte(low) == a
            &&& after.byte(high) == b
        }),
{
    assert(((b as u16) << 8) | (a as u16) == (b * 256 + a) as u16) by (bit_vector);
}

} // verus!
