//! The nine 8088 flags, their 16-bit and 8-bit encodings, and the arithmetic,
//! logical, shift and rotate operations together with the flags they leave.
use vstd::prelude::*;

verus! {

/// Operand width of an operation.
#[derive(Clone, Copy, Debug, PartialEq, Eq, Structural)]
pub enum Width {
    Byte,
    Word,
}

/// `2^8` or `2^16`.
pub open spec fn modulus(w: Width) -> int {
    match w {
        Width::Byte => 0x100,
        Width::Word => 0x1_0000,
    }
}

/// The weight of the most significant bit.
pub open spec fn half(w: Width) -> int {
    match w {
        Width::Byte => 0x80,
        Width::Word => 0x8000,
    }
}

/// Whether `v` is a value of width `w`.
pub open spec fn fits(v: int, w: Width) -> bool {
    0 <= v < modulus(w)
}

/// The most significant bit of a value of width `w`.
pub open spec fn msb(v: int, w: Width) -> bool {
    v >= half(w)
}

/// A value of width `w` read as two's complement.
pub open spec fn signed(v: int, w: Width) -> int {
    if msb(v, w) {
        v - modulus(w)
    } else {
        v
    }
}

/// Whether a signed result is out of range for width `w`.
pub open spec fn signed_overflow(s: int, w: Width) -> bool {
    s < -half(w) || s >= half(w)
}

/// The number of set bits among the low `n` bits of `x`.
pub open spec fn ones(x: int, n: nat) -> nat
    decreases n,
{
    if n == 0 {
        0
    } else {
        (x % 2) as nat + ones(x / 2, (n - 1) as nat)
    }
}

fn bit(b: bool, mask: u16) -> (r: u16)
    ensures
        r == flag_bit(b, mask),
{
    if b {
        mask
    } else {
        0
    }
}

/// Whether the low byte of `v` has an even number of set bits.
pub open spec fn even_parity(v: int) -> bool {
    ones(v % 256, 8) % 2 == 0
}

/// The bit of weight `mask` in a flag word, for a flag that is `b`.
pub open spec fn flag_bit(b: bool, mask: u16) -> u16 {
    if b {
        mask
    } else {
        0
    }
}

/// The bits of the flag word that hold flags.
pub const FLAG_MASK: u16 = 0x0FD5;

/// The bits of the low flag byte that hold flags.
pub const FLAG_BYTE_MASK: u8 = 0xD5;

#[derive(Clone, Copy, Debug, PartialEq, Eq, Structural)]
pub struct Flags {
    pub carry: bool,
    pub parity: bool,
    pub adjust: bool,
    pub zero: bool,
    pub sign: bool,
    pub trap: bool,
    pub interrupt: bool,
    pub direction: bool,
    pub overflow: bool,
}

/// The flags that a flag word encodes.
pub open spec fn flags_of_word(w: u16) -> Flags {
    Flags {
        carry: w & 0x1 != 0,
        parity: w & 0x4 != 0,
        adjust: w & 0x10 != 0,
        zero: w & 0x40 != 0,
        sign: w & 0x80 != 0,
        trap: w & 0x100 != 0,
        interrupt: w & 0x200 != 0,
        direction: w & 0x400 != 0,
        overflow: w & 0x800 != 0,
    }
}

/// Every operation of the arithmetic/logic group, in encoding order.
#[derive(Clone, Copy, Debug, PartialEq, Eq, Structural)]
pub enum AluOp {
    Add,
    Or,
    Adc,
    Sbb,
    And,
    Sub,
    Xor,
    Cmp,
}

/// Every operation of the shift/rotate group.
#[derive(Clone, Copy, Debug, PartialEq, Eq, Structural)]
pub enum ShiftOp {
    Rol,
    Ror,
    Rcl,
    Rcr,
    Shl,
    Shr,
    Sar,
}

/// The carry or borrow that `op` takes in.
pub open spec fn carry_in(op: AluOp, carry: bool) -> int {
    if (op == AluOp::Adc || op == AluOp::Sbb) && carry {
        1
    } else {
        0
    }
}

/// Whether `op` adds.
pub open spec fn is_addition(op: AluOp) -> bool {
    op == AluOp::Add || op == AluOp::Adc
}

/// Whether `op` subtracts.
pub open spec fn is_subtraction(op: AluOp) -> bool {
    op == AluOp::Sub || op == AluOp::Sbb || op == AluOp::Cmp
}

/// The result of `op` on `a` and `b` of width `w`.
pub open spec fn alu_result(op: AluOp, a: u16, b: u16, carry: bool, w: Width) -> u16 {
    let c = carry_in(op, carry);
    if is_addition(op) {
        ((a + b + c) % modulus(w)) as u16
    } else if is_subtraction(op) {
        ((a - b - c + modulus(w)) % modulus(w)) as u16
    } else if op == AluOp::And {
        a & b
    } else if op == AluOp::Or {
        a | b
    } else {
        a ^ b
    }
}

/// One step of a shift or rotate: the new value and the bit that went to
/// the carry.
pub open spec fn shift_step(op: ShiftOp, w: Width, v: int, cf: bool) -> (int, bool) {
    let m = modulus(w);
    let top = msb(v, w);
    let bottom = v % 2 == 1;
    match op {
        ShiftOp::Rol => ((v * 2) % m + (if top { 1int } else { 0 }), top),
        ShiftOp::Ror => (v / 2 + (if bottom { half(w) } else { 0 }), bottom),
        ShiftOp::Rcl => ((v * 2) % m + (if cf { 1int } else { 0 }), top),
        ShiftOp::Rcr => (v / 2 + (if cf { half(w) } else { 0 }), bottom),
        ShiftOp::Shl => ((v * 2) % m, top),
        ShiftOp::Shr => (v / 2, bottom),
        ShiftOp::Sar => (v / 2 + (if top { half(w) } else { 0 }), bottom),
    }
}

/// `n` steps of a shift or rotate.
pub open spec fn shift_steps(op: ShiftOp, w: Width, v: int, cf: bool, n: nat) -> (int, bool)
    decreases n,
{
    if n == 0 {
        (v, cf)
    } else {
        let (v1, c1) = shift_step(op, w, v, cf);
        shift_steps(op, w, v1, c1, (n - 1) as nat)
    }
}

/// The overflow flag after a shift or rotate of `v` to `r` with carry-out `cf`.
pub open spec fn shift_overflow(op: ShiftOp, w: Width, v: int, r: int, cf: bool) -> bool {
    match op {
        ShiftOp::Rol | ShiftOp::Rcl | ShiftOp::Shl => msb(r, w) != cf,
        ShiftOp::Ror | ShiftOp::Rcr => msb(r, w) != msb((r * 2) % modulus(w), w),
        ShiftOp::Shr => msb(v, w),
        ShiftOp::Sar => false,
    }
}

/// Whether a shift or rotate sets sign, zero and parity from its result.
pub open spec fn is_shift(op: ShiftOp) -> bool {
    op == ShiftOp::Shl || op == ShiftOp::Shr || op == ShiftOp::Sar
}

/// Whether the low byte of `v` has an even number of set bits.
pub fn parity(v: u16) -> (r: bool)
    ensures
        r == even_parity(v as int),
{
    let mut x: u16 = v % 256;
    let mut count: u16 = 0;
    let mut i: u16 = 0;
    while i < 8
        invariant
            i <= 8,
            count <= i,
            count + ones(x as int, (8 - i) as nat) == ones(v as int % 256, 8),
        decreases 8 - i,
    {
        count = count + x % 2;
        x = x / 2;
        i = i + 1;
    }
    count % 2 == 0
}

impl Flags {
    /// All flags clear.
    pub fn new() -> (r: Flags)
        ensures
            r.word() == 0,
            r == flags_of_word(0),
    {
        proof {
            assert(0u16 & 0x1 == 0 && 0u16 & 0x4 == 0 && 0u16 & 0x10 == 0 && 0u16 & 0x40 == 0 && 0u16
                & 0x80 == 0 && 0u16 & 0x100 == 0 && 0u16 & 0x200 == 0 && 0u16 & 0x400 == 0 && 0u16
                & 0x800 == 0) by (bit_vector);
            assert(0u16 | 0u16 | 0u16 | 0u16 | 0u16 | 0u16 | 0u16 | 0u16 | 0u16 == 0u16)
                by (bit_vector);
        }
        Flags {
            carry: false,
            parity: false,
            adjust: false,
            zero: false,
            sign: false,
            trap: false,
            interrupt: false,
            direction: false,
            overflow: false,
        }
    }

    /// The flag word: carry in bit 0, parity 2, adjust 4, zero 6, sign 7,
    /// trap 8, interrupt 9, direction 10, overflow 11; the other bits clear.
    pub open spec fn word(self) -> u16 {
        flag_bit(self.carry, 0x1) | flag_bit(self.parity, 0x4) | flag_bit(self.adjust, 0x10)
            | flag_bit(self.zero, 0x40) | flag_bit(self.sign, 0x80) | flag_bit(self.trap, 0x100)
            | flag_bit(self.interrupt, 0x200) | flag_bit(self.direction, 0x400) | flag_bit(
            self.overflow,
            0x800,
        )
    }

    /// Zero, sign and parity set from a result of width `w`.
    pub open spec fn with_szp(self, r: int, w: Width) -> Flags {
        Flags { zero: r == 0, sign: msb(r, w), parity: even_parity(r), ..self }
    }

    /// The flags after `op` on `a` and `b` of width `w`.
    pub open spec fn after_alu(self, op: AluOp, a: u16, b: u16, w: Width) -> Flags {
        let c = carry_in(op, self.carry);
        let szp = self.with_szp(alu_result(op, a, b, self.carry, w) as int, w);
        if is_addition(op) {
            Flags {
                carry: a + b + c >= modulus(w),
                adjust: a % 16 + b % 16 + c >= 16,
                overflow: signed_overflow(signed(a as int, w) + signed(b as int, w) + c, w),
                ..szp
            }
        } else if is_subtraction(op) {
            Flags {
                carry: a < b + c,
                adjust: a % 16 < b % 16 + c,
                overflow: signed_overflow(signed(a as int, w) - signed(b as int, w) - c, w),
                ..szp
            }
        } else {
            Flags { carry: false, overflow: false, ..szp }
        }
    }

    /// The flags after a shift or rotate of `v` by `count` of width `w`.
    pub open spec fn after_shift(self, op: ShiftOp, v: u16, count: u8, w: Width) -> Flags {
        let (r, cf) = shift_steps(op, w, v as int, self.carry, count as nat);
        if count == 0 {
            self
        } else if is_shift(op) {
            Flags { carry: cf, overflow: shift_overflow(op, w, v as int, r, cf), ..self.with_szp(r, w) }
        } else {
            Flags { carry: cf, overflow: shift_overflow(op, w, v as int, r, cf), ..self }
        }
    }

    pub fn get_bits_word(&self) -> (r: u16)
        ensures
            r == self.word(),
    {
        bit(self.carry, 0x1) | bit(self.parity, 0x4) | bit(self.adjust, 0x10) | bit(self.zero, 0x40)
            | bit(self.sign, 0x80) | bit(self.trap, 0x100) | bit(self.interrupt, 0x200) | bit(
            self.direction,
            0x400,
        ) | bit(self.overflow, 0x800)
    }

    pub fn set_bits_word(&mut self, value: u16)
        ensures
            *final(self) == flags_of_word(value),
    {
        self.carry = value & 0x1 != 0;
        self.parity = value & 0x4 != 0;
        self.adjust = value & 0x10 != 0;
        self.zero = value & 0x40 != 0;
        self.sign = value & 0x80 != 0;
        self.trap = value & 0x100 != 0;
        self.interrupt = value & 0x200 != 0;
        self.direction = value & 0x400 != 0;
        self.overflow = value & 0x800 != 0;
    }

    /// The low byte of the flag word.
    pub fn get_bits_byte(&self) -> (r: u8)
        ensures
            r == self.word() % 256,
    {
        (self.get_bits_word() % 256) as u8
    }

    /// Loads carry, parity, adjust, zero and sign from the low flag byte.
    pub fn set_bits_byte(&mut self, value: u8)
        ensures
            ({
                let f = flags_of_word(value as u16);
                *final(self) == Flags {
                    carry: f.carry,
                    parity: f.parity,
                    adjust: f.adjust,
                    zero: f.zero,
                    sign: f.sign,
                    ..*old(self)
                }
            }),
    {
        let v = value as u16;
        self.carry = v & 0x1 != 0;
        self.parity = v & 0x4 != 0;
        self.adjust = v & 0x10 != 0;
        self.zero = v & 0x40 != 0;
        self.sign = v & 0x80 != 0;
    }

    fn set_szp(&mut self, r: u16, w: Width)
        requires
            fits(r as int, w),
        ensures
            *final(self) == old(self).with_szp(r as int, w),
    {
        self.zero = r == 0;
        self.sign = match w {
            Width::Byte => r >= 0x80,
            Width::Word => r >= 0x8000,
        };
        self.parity = parity(r);
    }

    /// Runs `op` on `a` and `b` of width `w`, sets the flags, and returns the
    /// result (for a compare, the difference, which the caller drops).
    pub fn alu(&mut self, op: AluOp, a: u16, b: u16, w: Width) -> (r: u16)
        requires
            fits(a as int, w),
            fits(b as int, w),
        ensures
            r == alu_result(op, a, b, old(self).carry, w),
            fits(r as int, w),
            *final(self) == old(self).after_alu(op, a, b, w),
    {
        let c: u16 = if (op == AluOp::Adc || op == AluOp::Sbb) && self.carry {
            1
        } else {
            0
        };
        match op {
            AluOp::Add | AluOp::Adc => self.add(a, b, c, w),
            AluOp::Sub | AluOp::Sbb | AluOp::Cmp => self.sub(a, b, c, w),
            _ => {
                let r = match op {
                    AluOp::And => a & b,
                    AluOp::Or => a | b,
                    _ => a ^ b,
                };
                proof {
                    lemma_bitwise_fits(a, b, w);
                }
                self.set_szp(r, w);
                self.carry = false;
                self.overflow = false;
                r
            },
        }
    }

    fn add(&mut self, a: u16, b: u16, c: u16, w: Width) -> (r: u16)
        requires
            fits(a as int, w),
            fits(b as int, w),
            c <= 1,
        ensures
            r == (a + b + c) % modulus(w),
            *final(self) == (Flags {
                carry: a + b + c >= modulus(w),
                adjust: a % 16 + b % 16 + c >= 16,
                overflow: signed_overflow(signed(a as int, w) + signed(b as int, w) + c, w),
                ..old(self).with_szp(r as int, w)
            }),
    {
        let m: u32 = match w {
            Width::Byte => 0x100,
            Width::Word => 0x1_0000,
        };
        let sum = a as u32 + b as u32 + c as u32;
        let r = (sum % m) as u16;
        self.set_szp(r, w);
        self.carry = sum >= m;
        self.adjust = a % 16 + b % 16 + c >= 16;
        self.overflow = signed_overflows(signed_value(a, w) + signed_value(b, w) + c as i32, w);
        r
    }

    fn sub(&mut self, a: u16, b: u16, c: u16, w: Width) -> (r: u16)
        requires
            fits(a as int, w),
            fits(b as int, w),
            c <= 1,
        ensures
            r == (a - b - c + modulus(w)) % modulus(w),
            *final(self) == (Flags {
                carry: a < b + c,
                adjust: a % 16 < b % 16 + c,
                overflow: signed_overflow(signed(a as int, w) - signed(b as int, w) - c, w),
                ..old(self).with_szp(r as int, w)
            }),
    {
        let m: u32 = match w {
            Width::Byte => 0x100,
            Width::Word => 0x1_0000,
        };
        let r = ((a as u32 + m - b as u32 - c as u32) % m) as u16;
        self.set_szp(r, w);
        self.carry = (a as u32) < b as u32 + c as u32;
        self.adjust = a % 16 < b % 16 + c;
        self.overflow = signed_overflows(signed_value(a, w) - signed_value(b, w) - c as i32, w);
        r
    }

    /// Increments or decrements `a` of width `w`; the carry flag is kept.
    pub fn inc_dec(&mut self, a: u16, increment: bool, w: Width) -> (r: u16)
        requires
            fits(a as int, w),
        ensures
            ({
                let op = if increment { AluOp::Add } else { AluOp::Sub };
                &&& r == alu_result(op, a, 1, false, w)
                &&& *final(self) == (Flags { carry: old(self).carry, ..old(self).after_alu(op, a, 1, w) })
            }),
    {
        let carry = self.carry;
        let r = if increment {
            self.alu(AluOp::Add, a, 1, w)
        } else {
            self.alu(AluOp::Sub, a, 1, w)
        };
        self.carry = carry;
        r
    }

    /// Negates `a` of width `w`: zero minus `a`.
    pub fn neg(&mut self, a: u16, w: Width) -> (r: u16)
        requires
            fits(a as int, w),
        ensures
            r == alu_result(AluOp::Sub, 0, a, false, w),
            *final(self) == old(self).after_alu(AluOp::Sub, 0, a, w),
            final(self).carry == (a != 0),
    {
        self.alu(AluOp::Sub, 0, a, w)
    }

    /// Shifts or rotates `v` of width `w` by `count` bits, one bit at a time.
    pub fn shift(&mut self, op: ShiftOp, v: u16, count: u8, w: Width) -> (r: u16)
        requires
            fits(v as int, w),
        ensures
            r == shift_steps(op, w, v as int, old(self).carry, count as nat).0,
            fits(r as int, w),
            *final(self) == old(self).after_shift(op, v, count, w),
    {
        let h: u16 = match w {
            Width::Byte => 0x80,
            Width::Word => 0x8000,
        };
        let mut x: u16 = v;
        let mut cf: bool = self.carry;
        let mut i: u8 = 0;
        while i < count
            invariant
                i <= count,
                fits(x as int, w),
                h == half(w),
                shift_steps(op, w, v as int, old(self).carry, count as nat) == shift_steps(
                    op,
                    w,
                    x as int,
                    cf,
                    (count - i) as nat,
                ),
            decreases count - i,
        {
            let (nx, nc) = shift_once(op, w, x, cf);
            x = nx;
            cf = nc;
            i = i + 1;
        }
        proof {
            assert(shift_steps(op, w, x as int, cf, 0) == (x as int, cf));
        }
        if count > 0 {
            self.set_shift_flags(op, v, x, cf, w);
        }
        x
    }

    fn set_shift_flags(&mut self, op: ShiftOp, v: u16, x: u16, cf: bool, w: Width)
        requires
            fits(v as int, w),
            fits(x as int, w),
        ensures
            is_shift(op) ==> *final(self) == (Flags {
                carry: cf,
                overflow: shift_overflow(op, w, v as int, x as int, cf),
                ..old(self).with_szp(x as int, w)
            }),
            !is_shift(op) ==> *final(self) == (Flags {
                carry: cf,
                overflow: shift_overflow(op, w, v as int, x as int, cf),
                ..*old(self)
            }),
    {
        let h: u16 = match w {
            Width::Byte => 0x80,
            Width::Word => 0x8000,
        };
        if op == ShiftOp::Shl || op == ShiftOp::Shr || op == ShiftOp::Sar {
            self.set_szp(x, w);
        }
        self.overflow = match op {
            ShiftOp::Rol | ShiftOp::Rcl | ShiftOp::Shl => (x >= h) != cf,
            ShiftOp::Ror | ShiftOp::Rcr => (x >= h) != ((x % h) * 2 >= h),
            ShiftOp::Shr => v >= h,
            ShiftOp::Sar => false,
        };
        proof {
            assert((x * 2) % modulus(w) == (x % h) * 2);
        }
        self.carry = cf;
    }

    /// Subtracts `b` from `a` for a compare: flags only.
    pub fn cmp_sub_byte(&mut self, a: u8, b: u8)
        ensures
            *final(self) == old(self).after_alu(AluOp::Cmp, a as u16, b as u16, Width::Byte),
    {
        self.alu(AluOp::Cmp, a as u16, b as u16, Width::Byte);
    }

    /// Subtracts `b` from `a` for a compare: flags only.
    pub fn cmp_sub_word(&mut self, a: u16, b: u16)
        ensures
            *final(self) == old(self).after_alu(AluOp::Cmp, a, b, Width::Word),
    {
        self.alu(AluOp::Cmp, a, b, Width::Word);
    }
}

fn shift_once(op: ShiftOp, w: Width, x: u16, cf: bool) -> (r: (u16, bool))
    requires
        fits(x as int, w),
    ensures
        r.0 as int == shift_step(op, w, x as int, cf).0,
        r.1 == shift_step(op, w, x as int, cf).1,
        fits(r.0 as int, w),
{
    let h: u16 = match w {
        Width::Byte => 0x80,
        Width::Word => 0x8000,
    };
    let top = x >= h;
    let bottom = x % 2 == 1;
    let low_part: u16 = (x % h) * 2;
    proof {
        assert((x * 2) % modulus(w) == (x % h) * 2);
    }
    match op {
        ShiftOp::Rol => (low_part + if top { 1 } else { 0 }, top),
        ShiftOp::Ror => (x / 2 + if bottom { h } else { 0 }, bottom),
        ShiftOp::Rcl => (low_part + if cf { 1 } else { 0 }, top),
        ShiftOp::Rcr => (x / 2 + if cf { h } else { 0 }, bottom),
        ShiftOp::Shl => (low_part, top),
        ShiftOp::Shr => (x / 2, bottom),
        ShiftOp::Sar => (x / 2 + if top { h } else { 0 }, bottom),
    }
}

fn signed_value(v: u16, w: Width) -> (r: i32)
    requires
        fits(v as int, w),
    ensures
        r == signed(v as int, w),
{
    match w {
        Width::Byte => if v >= 0x80 { v as i32 - 0x100 } else { v as i32 },
        Width::Word => if v >= 0x8000 { v as i32 - 0x1_0000 } else { v as i32 },
    }
}

fn signed_overflows(s: i32, w: Width) -> (r: bool)
    ensures
        r == signed_overflow(s as int, w),
{
    match w {
        Width::Byte => s < -0x80 || s >= 0x80,
        Width::Word => s < -0x8000 || s >= 0x8000,
    }
}

/// Decoding a flag word and encoding the flags again keeps exactly the bits
/// that hold flags.
pub proof fn lemma_flag_round_trip(w: u16)
    ensures
        flags_of_word(w).word() == w & FLAG_MASK,
{
    assert(flag_bit(w & 0x1 != 0, 0x1) | flag_bit(w & 0x4 != 0, 0x4) | flag_bit(w & 0x10 != 0, 0x10)
        | flag_bit(w & 0x40 != 0, 0x40) | flag_bit(w & 0x80 != 0, 0x80) | flag_bit(
        w & 0x100 != 0,
        0x100,
    ) | flag_bit(w & 0x200 != 0, 0x200) | flag_bit(w & 0x400 != 0, 0x400) | flag_bit(
        w & 0x800 != 0,
        0x800,
    ) == w & 0x0FD5) by (bit_vector);
}

/// Decoding a flag byte and encoding the flags again keeps exactly the bits
/// of the byte that hold flags.
pub proof fn lemma_flag_byte_round_trip(f: Flags, b: u8)
    ensures
        ({
            let g = flags_of_word(b as u16);
            let after = Flags {
                carry: g.carry,
                parity: g.parity,
                adjust: g.adjust,
                zero: g.zero,
                sign: g.sign,
                ..f
            };
            after.word() % 256 == b & FLAG_BYTE_MASK
        }),
{
    let g = flags_of_word(b as u16);
    let after = Flags { carry: g.carry, parity: g.parity, adjust: g.adjust, zero: g.zero, sign: g.sign, ..f };
    let (t, i, d, o) = (f.trap, f.interrupt, f.direction, f.overflow);
    assert((flag_bit(b & 0x1 != 0, 0x1) | flag_bit(b & 0x4 != 0, 0x4) | flag_bit(b & 0x10 != 0, 0x10)
        | flag_bit(b & 0x40 != 0, 0x40) | flag_bit(b & 0x80 != 0, 0x80) | flag_bit(t, 0x100) | flag_bit(
        i,
        0x200,
    ) | flag_bit(d, 0x400) | flag_bit(o, 0x800)) % 256 == (b & 0xD5) as u16) by (bit_vector);
    assert((b as u16) & 0x1 == (b & 0x1) as u16 && (b as u16) & 0x4 == (b & 0x4) as u16 && (b as u16)
        & 0x10 == (b & 0x10) as u16 && (b as u16) & 0x40 == (b & 0x40) as u16 && (b as u16) & 0x80 == (b
        & 0x80) as u16) by (bit_vector);
}

/// Every arithmetic or logical operation sets zero when its result is zero,
/// sign from the result's top bit, and parity when the result's low byte
/// has an even number of set bits.
pub proof fn lemma_result_flags(f: Flags, op: AluOp, a: u16, b: u16, w: Width)
    ensures
        ({
            let r = alu_result(op, a, b, f.carry, w) as int;
            let g = f.after_alu(op, a, b, w);
            &&& g.zero == (r == 0)
            &&& g.sign == msb(r, w)
            &&& g.parity == (ones(r % 256, 8) % 2 == 0)
        }),
{
}

/// For 8-bit operands, addition sets carry exactly when the sum exceeds
/// `0xFF`, and subtraction exactly when `a < b`.
pub proof fn lemma_byte_carry(f: Flags, a: u8, b: u8)
    ensures
        f.after_alu(AluOp::Add, a as u16, b as u16, Width::Byte).carry == (a + b > 0xFF),
        f.after_alu(AluOp::Sub, a as u16, b as u16, Width::Byte).carry == (a < b),
{
}

/// For 8-bit addition, overflow is set exactly when both operands differ in
/// sign from the result: `((a ^ r) & (b ^ r) & 0x80) != 0`.
pub proof fn lemma_byte_add_overflow(f: Flags, a: u8, b: u8)
    ensures
        ({
            let r = alu_result(AluOp::Add, a as u16, b as u16, f.carry, Width::Byte) as u8;
            f.after_alu(AluOp::Add, a as u16, b as u16, Width::Byte).overflow == (((a ^ r) & (b ^ r)
                & 0x80) != 0)
        }),
{
    let r = alu_result(AluOp::Add, a as u16, b as u16, f.carry, Width::Byte) as u8;
    assert(r == ((a + b) % 256) as u8);
    let both_low = a < 128 && b < 128 && a + b >= 128;
    let both_high = a >= 128 && b >= 128 && a + b < 384;
    assert((both_low || both_high) == (((a ^ r) & (b ^ r) & 0x80) != 0)) by (bit_vector)
        requires
            r == ((a + b) % 256) as u8,
            both_low == (a < 128 && b < 128 && a + b >= 128),
            both_high == (a >= 128 && b >= 128 && a + b < 384),
    ;
}

proof fn lemma_bitwise_fits(a: u16, b: u16, w: Width)
    requires
        fits(a as int, w),
        fits(b as int, w),
    ensures
        fits((a & b) as int, w),
        fits((a | b) as int, w),
        fits((a ^ b) as int, w),
{
    if w == Width::Byte {
        assert(a < 256 && b < 256 ==> (a & b) < 256 && (a | b) < 256 && (a ^ b) < 256)
            by (bit_vector);
    }
}

} // verus!
