//! Arithmetic, logical, shift and rotate instructions on operands, and
//! unsigned multiply and divide.
use vstd::prelude::*;
use crate::cpu::{byte_value, with_byte_op, with_word_op, word_value, CPU};
use crate::flags::{alu_result, shift_steps, signed, AluOp, Flags, ShiftOp, Width};
use crate::jump::{enter_interrupt, interrupt_entry};
use crate::operand;
use crate::register;
use crate::state::MachineState;
use crate::transfer::{byte_ea, word_ea};

verus! {

/// Clock cycles of an arithmetic or logical instruction: register with
/// register 3, immediate to register 4, memory to register 9, register to
/// memory 16, immediate to memory 17, memory forms plus the
/// effective-address penalty.
pub open spec fn alu_cycles(dst_mem: bool, src_mem: bool, src_imm: bool, ea: int) -> int {
    if dst_mem {
        if src_imm {
            17 + ea
        } else {
            16 + ea
        }
    } else if src_mem {
        9 + ea
    } else if src_imm {
        4
    } else {
        3
    }
}

fn alu_cost(dst_mem: bool, src_mem: bool, src_imm: bool, ea: u16) -> (r: usize)
    ensures
        r == alu_cycles(dst_mem, src_mem, src_imm, ea as int),
{
    let ea = ea as usize;
    if dst_mem {
        if src_imm {
            17 + ea
        } else {
            16 + ea
        }
    } else if src_mem {
        9 + ea
    } else if src_imm {
        4
    } else {
        3
    }
}

fn byte_penalty(op: &operand::Byte) -> (r: u8)
    ensures
        r as int == byte_ea(*op),
{
    match op {
        operand::Byte::Mem { cycles, .. } => *cycles,
        _ => 0,
    }
}

fn word_penalty(op: &operand::Word) -> (r: u8)
    ensures
        r as int == word_ea(*op),
{
    match op {
        operand::Word::Mem { cycles, .. } => *cycles,
        _ => 0,
    }
}

/// An 8-bit arithmetic or logical instruction: the result goes to the
/// destination, except for CMP, which sets flags only.
pub fn alu_byte(cpu: &mut CPU, op: AluOp, set_op: operand::Byte, get_op: operand::Byte) -> (r: usize)
    requires
        old(cpu).wf(),
        set_op.writable(),
    ensures
        final(cpu).wf(),
        ({
            let s = old(cpu)@;
            let a = byte_value(s, set_op) as u16;
            let b = byte_value(s, get_op) as u16;
            let t = s.with_flags(s.flags.after_alu(op, a, b, Width::Byte));
            if op == AluOp::Cmp {
                final(cpu)@ == t
            } else {
                final(cpu)@ == with_byte_op(t, set_op, alu_result(op, a, b, s.flags.carry, Width::Byte) as u8)
            }
        }),
        r == alu_cycles(set_op is Mem, get_op is Mem, get_op is Imm, byte_ea(set_op) + byte_ea(get_op)),
{
    let a = cpu.read_byte(&set_op) as u16;
    let b = cpu.read_byte(&get_op) as u16;
    let result = cpu.flags.alu(op, a, b, Width::Byte);
    if op != AluOp::Cmp {
        cpu.write_byte(&set_op, result as u8);
    }
    let ea = byte_penalty(&set_op) as u16 + byte_penalty(&get_op) as u16;
    alu_cost(
        matches!(set_op, operand::Byte::Mem { .. }),
        matches!(get_op, operand::Byte::Mem { .. }),
        matches!(get_op, operand::Byte::Imm(_)),
        ea,
    )
}

/// A 16-bit arithmetic or logical instruction: the result goes to the
/// destination, except for CMP, which sets flags only.
pub fn alu_word(cpu: &mut CPU, op: AluOp, set_op: operand::Word, get_op: operand::Word) -> (r: usize)
    requires
        old(cpu).wf(),
        set_op.writable(),
    ensures
        final(cpu).wf(),
        ({
            let s = old(cpu)@;
            let a = word_value(s, set_op);
            let b = word_value(s, get_op);
            let t = s.with_flags(s.flags.after_alu(op, a, b, Width::Word));
            if op == AluOp::Cmp {
                final(cpu)@ == t
            } else {
                final(cpu)@ == with_word_op(t, set_op, alu_result(op, a, b, s.flags.carry, Width::Word))
            }
        }),
        r == alu_cycles(set_op is Mem, get_op is Mem, get_op is Imm, word_ea(set_op) + word_ea(get_op)),
{
    let a = cpu.read_word(&set_op);
    let b = cpu.read_word(&get_op);
    let result = cpu.flags.alu(op, a, b, Width::Word);
    if op != AluOp::Cmp {
        cpu.write_word(&set_op, result);
    }
    let ea = word_penalty(&set_op) as u16 + word_penalty(&get_op) as u16;
    alu_cost(
        matches!(set_op, operand::Word::Mem { .. }),
        matches!(get_op, operand::Word::Mem { .. }),
        matches!(get_op, operand::Word::Imm(_)),
        ea,
    )
}

/// INC or DEC of an 8-bit operand; carry is kept.
pub fn inc_dec_byte(cpu: &mut CPU, set_op: operand::Byte, increment: bool) -> (r: usize)
    requires
        old(cpu).wf(),
        set_op.writable(),
    ensures
        final(cpu).wf(),
        ({
            let s = old(cpu)@;
            let a = byte_value(s, set_op) as u16;
            let op = if increment { AluOp::Add } else { AluOp::Sub };
            let f = Flags { carry: s.flags.carry, ..s.flags.after_alu(op, a, 1, Width::Byte) };
            final(cpu)@ == with_byte_op(s.with_flags(f), set_op, alu_result(op, a, 1, false, Width::Byte) as u8)
        }),
        r == (if set_op is Mem { 15 + byte_ea(set_op) } else { 3 }),
{
    let a = cpu.read_byte(&set_op) as u16;
    let result = cpu.flags.inc_dec(a, increment, Width::Byte);
    cpu.write_byte(&set_op, result as u8);
    match set_op {
        operand::Byte::Mem { cycles, .. } => 15 + cycles as usize,
        _ => 3,
    }
}

/// INC or DEC of a 16-bit operand; carry is kept.
pub fn inc_dec_word(cpu: &mut CPU, set_op: operand::Word, increment: bool) -> (r: usize)
    requires
        old(cpu).wf(),
        set_op.writable(),
    ensures
        final(cpu).wf(),
        ({
            let s = old(cpu)@;
            let a = word_value(s, set_op);
            let op = if increment { AluOp::Add } else { AluOp::Sub };
            let f = Flags { carry: s.flags.carry, ..s.flags.after_alu(op, a, 1, Width::Word) };
            final(cpu)@ == with_word_op(s.with_flags(f), set_op, alu_result(op, a, 1, false, Width::Word))
        }),
        r == (if set_op is Mem { 15 + word_ea(set_op) } else { 2 }),
{
    let a = cpu.read_word(&set_op);
    let result = cpu.flags.inc_dec(a, increment, Width::Word);
    cpu.write_word(&set_op, result);
    match set_op {
        operand::Word::Mem { cycles, .. } => 15 + cycles as usize,
        _ => 2,
    }
}

/// Clock cycles of a shift or rotate: by one, 2 on a register and 15 plus
/// the penalty in memory; by CL, 8 and 20 plus four per bit.
pub open spec fn shift_cycles(mem: bool, by_cl: bool, count: int, ea: int) -> int {
    if mem {
        if by_cl {
            20 + ea + 4 * count
        } else {
            15 + ea
        }
    } else if by_cl {
        8 + 4 * count
    } else {
        2
    }
}

fn shift_cost(mem: bool, by_cl: bool, count: u8, ea: u8) -> (r: usize)
    ensures
        r == shift_cycles(mem, by_cl, count as int, ea as int),
{
    let (count, ea) = (count as usize, ea as usize);
    if mem {
        if by_cl {
            20 + ea + 4 * count
        } else {
            15 + ea
        }
    } else if by_cl {
        8 + 4 * count
    } else {
        2
    }
}

/// A shift or rotate of an 8-bit operand by the count in `get_op` (an
/// immediate one, or CL).
pub fn shift_byte(cpu: &mut CPU, op: ShiftOp, set_op: operand::Byte, get_op: operand::Byte) -> (r: usize)
    requires
        old(cpu).wf(),
        set_op.writable(),
    ensures
        final(cpu).wf(),
        ({
            let s = old(cpu)@;
            let v = byte_value(s, set_op) as u16;
            let n = byte_value(s, get_op);
            let res = shift_steps(op, Width::Byte, v as int, s.flags.carry, n as nat).0;
            &&& final(cpu)@ == with_byte_op(s.with_flags(s.flags.after_shift(op, v, n, Width::Byte)), set_op, res as u8)
            &&& r == shift_cycles(set_op is Mem, get_op is Reg, n as int, byte_ea(set_op))
        }),
{
    let v = cpu.read_byte(&set_op) as u16;
    let n = cpu.read_byte(&get_op);
    let result = cpu.flags.shift(op, v, n, Width::Byte);
    cpu.write_byte(&set_op, result as u8);
    shift_cost(
        matches!(set_op, operand::Byte::Mem { .. }),
        matches!(get_op, operand::Byte::Reg(_)),
        n,
        byte_penalty(&set_op),
    )
}

/// A shift or rotate of a 16-bit operand by the count in `get_op` (an
/// immediate one, or CL).
pub fn shift_word(cpu: &mut CPU, op: ShiftOp, set_op: operand::Word, get_op: operand::Byte) -> (r: usize)
    requires
        old(cpu).wf(),
        set_op.writable(),
    ensures
        final(cpu).wf(),
        ({
            let s = old(cpu)@;
            let v = word_value(s, set_op);
            let n = byte_value(s, get_op);
            let res = shift_steps(op, Width::Word, v as int, s.flags.carry, n as nat).0;
            &&& final(cpu)@ == with_word_op(s.with_flags(s.flags.after_shift(op, v, n, Width::Word)), set_op, res as u16)
            &&& r == shift_cycles(set_op is Mem, get_op is Reg, n as int, word_ea(set_op))
        }),
{
    let v = cpu.read_word(&set_op);
    let n = cpu.read_byte(&get_op);
    let result = cpu.flags.shift(op, v, n, Width::Word);
    cpu.write_word(&set_op, result);
    shift_cost(
        matches!(set_op, operand::Word::Mem { .. }),
        matches!(get_op, operand::Byte::Reg(_)),
        n,
        word_penalty(&set_op),
    )
}

/// NOT of an 8-bit operand; flags are kept.
pub fn not_byte(cpu: &mut CPU, set_op: operand::Byte) -> (r: usize)
    requires
        old(cpu).wf(),
        set_op.writable(),
    ensures
        final(cpu).wf(),
        final(cpu)@ == with_byte_op(old(cpu)@, set_op, (255 - byte_value(old(cpu)@, set_op)) as u8),
        r == (if set_op is Mem { 16 + byte_ea(set_op) } else { 3 }),
{
    let a = cpu.read_byte(&set_op);
    cpu.write_byte(&set_op, 255 - a);
    match set_op {
        operand::Byte::Mem { cycles, .. } => 16 + cycles as usize,
        _ => 3,
    }
}

/// NOT of a 16-bit operand; flags are kept.
pub fn not_word(cpu: &mut CPU, set_op: operand::Word) -> (r: usize)
    requires
        old(cpu).wf(),
        set_op.writable(),
    ensures
        final(cpu).wf(),
        final(cpu)@ == with_word_op(old(cpu)@, set_op, (0xFFFF - word_value(old(cpu)@, set_op)) as u16),
        r == (if set_op is Mem { 16 + word_ea(set_op) } else { 3 }),
{
    let a = cpu.read_word(&set_op);
    cpu.write_word(&set_op, 0xFFFF - a);
    match set_op {
        operand::Word::Mem { cycles, .. } => 16 + cycles as usize,
        _ => 3,
    }
}

/// MUL of AL by an 8-bit operand into AX; carry and overflow are set when AH
/// is not zero.
pub fn mul_byte(cpu: &mut CPU, get_op: operand::Byte) -> (r: usize)
    requires
        old(cpu).wf(),
    ensures
        final(cpu).wf(),
        ({
            let s = old(cpu)@;
            let p = s.regs.byte(register::Byte::AL) * byte_value(s, get_op);
            final(cpu)@ == s.with_reg(register::Word::AX, p as u16).with_flags(
                Flags { carry: p >= 256, overflow: p >= 256, ..s.flags },
            )
        }),
        r == 70 + byte_ea(get_op),
{
    let b = cpu.read_byte(&get_op) as u16;
    let a = cpu.regs.get_byte(&register::Byte::AL) as u16;
    proof {
        assert(a * b <= 255 * 255) by (nonlinear_arith)
            requires
                a <= 255,
                b <= 255,
        ;
    }
    let p = a * b;
    cpu.regs.ax = p;
    cpu.flags.carry = p >= 256;
    cpu.flags.overflow = p >= 256;
    70 + byte_penalty(&get_op) as usize
}

/// What an unsigned 8-bit divide of AX does: `None` when the divisor is zero
/// or the quotient does not fit in a byte, else quotient and remainder.
pub open spec fn div_byte_result(ax: u16, d: u8) -> Option<(u8, u8)> {
    let (n, d) = (ax as int, d as int);
    if d == 0 || n / d > 255 {
        None
    } else {
        Some(((n / d) as u8, (n % d) as u8))
    }
}

/// DIV of AX by an 8-bit operand: AL gets the quotient and AH the remainder;
/// a zero divisor or a quotient over 255 enters interrupt 0 instead.
pub fn div_byte(cpu: &mut CPU, get_op: operand::Byte) -> (r: usize)
    requires
        old(cpu).wf(),
    ensures
        final(cpu).wf(),
        ({
            let s = old(cpu)@;
            match div_byte_result(s.regs.ax, byte_value(s, get_op)) {
                None => final(cpu)@ == interrupt_entry(s, 0) && r == 72,
                Some((q, m)) => final(cpu)@ == s.with_reg(register::Word::AX, (m * 256 + q) as u16)
                    && r == 80 + byte_ea(get_op),
            }
        }),
{
    let d = cpu.read_byte(&get_op) as u16;
    let ax = cpu.regs.ax;
    if d == 0 || ax / d > 255 {
        enter_interrupt(cpu, 0)
    } else {
        let q = ax / d;
        let m = ax % d;
        cpu.regs.ax = m * 256 + q;
        80 + byte_penalty(&get_op) as usize
    }
}

/// What an unsigned 16-bit divide of DX:AX does: `None` when the divisor is
/// zero or the quotient does not fit in a word, else quotient and remainder.
pub open spec fn div_word_result(dx: u16, ax: u16, d: u16) -> Option<(u16, u16)> {
    let n = dx * 0x1_0000 + ax;
    let d = d as int;
    if d == 0 || n / d > 0xFFFF {
        None
    } else {
        Some(((n / d) as u16, (n % d) as u16))
    }
}

/// DIV of DX:AX by a 16-bit operand: AX gets the quotient and DX the
/// remainder; a zero divisor or a quotient over 0xFFFF enters interrupt 0
/// instead.
pub fn div_word(cpu: &mut CPU, get_op: operand::Word) -> (r: usize)
    requires
        old(cpu).wf(),
    ensures
        final(cpu).wf(),
        ({
            let s = old(cpu)@;
            match div_word_result(s.regs.dx, s.regs.ax, word_value(s, get_op)) {
                None => final(cpu)@ == interrupt_entry(s, 0) && r == 72,
                Some((q, m)) => final(cpu)@ == s.with_reg(register::Word::AX, q).with_reg(
                    register::Word::DX,
                    m,
                ) && r == 144 + word_ea(get_op),
            }
        }),
{
    let d = cpu.read_word(&get_op) as u32;
    let n = cpu.regs.dx as u32 * 0x1_0000 + cpu.regs.ax as u32;
    if d == 0 || n / d > 0xFFFF {
        enter_interrupt(cpu, 0)
    } else {
        proof {
            assert(n % d < d) by (nonlinear_arith)
                requires
                    d > 0,
            ;
        }
        cpu.regs.ax = (n / d) as u16;
        cpu.regs.dx = (n % d) as u16;
        144 + word_penalty(&get_op) as usize
    }
}

/// MUL of AX by a 16-bit operand into DX:AX; carry and overflow are set
/// when DX is not zero.
pub fn mul_word(cpu: &mut CPU, get_op: operand::Word) -> (r: usize)
    requires
        old(cpu).wf(),
    ensures
        final(cpu).wf(),
        ({
            let s = old(cpu)@;
            let p = s.regs.ax * word_value(s, get_op);
            final(cpu)@ == s.with_reg(register::Word::AX, (p % 0x1_0000) as u16).with_reg(
                register::Word::DX,
                (p / 0x1_0000) as u16,
            ).with_flags(Flags { carry: p >= 0x1_0000, overflow: p >= 0x1_0000, ..s.flags })
        }),
        r == 118 + word_ea(get_op),
{
    let b = cpu.read_word(&get_op) as u32;
    let a = cpu.regs.ax as u32;
    proof {
        assert(a * b <= 0xFFFF * 0xFFFF) by (nonlinear_arith)
            requires
                a <= 0xFFFF,
                b <= 0xFFFF,
        ;
    }
    let p = a * b;
    cpu.regs.ax = (p % 0x1_0000) as u16;
    cpu.regs.dx = (p / 0x1_0000) as u16;
    cpu.flags.carry = p >= 0x1_0000;
    cpu.flags.overflow = p >= 0x1_0000;
    118 + word_penalty(&get_op) as usize
}

/// IMUL of AL by an 8-bit operand, both signed, into AX; carry and
/// overflow are set when the product does not fit in a signed byte.
pub fn imul_byte(cpu: &mut CPU, get_op: operand::Byte) -> (r: usize)
    requires
        old(cpu).wf(),
    ensures
        final(cpu).wf(),
        ({
            let s = old(cpu)@;
            let p = signed(s.regs.byte(register::Byte::AL) as int, Width::Byte) * signed(
                byte_value(s, get_op) as int,
                Width::Byte,
            );
            let wide = !(-128 <= p < 128);
            final(cpu)@ == s.with_reg(register::Word::AX, ((p + 0x1_0000) % 0x1_0000) as u16).with_flags(
                Flags { carry: wide, overflow: wide, ..s.flags },
            )
        }),
        r == 80 + byte_ea(get_op),
{
    let b = cpu.read_byte(&get_op);
    let a = cpu.regs.get_byte(&register::Byte::AL);
    let p = signed_product(a, b);
    cpu.regs.ax = ((p + 0x1_0000) % 0x1_0000) as u16;
    let wide = !(-128 <= p && p < 128);
    cpu.flags.carry = wide;
    cpu.flags.overflow = wide;
    80 + byte_penalty(&get_op) as usize
}

fn signed_product(a: u8, b: u8) -> (p: i32)
    ensures
        p == signed(a as int, Width::Byte) * signed(b as int, Width::Byte),
        -0x4000 <= p <= 0x4000,
{
    let sa: i32 = if a >= 128 { a as i32 - 256 } else { a as i32 };
    let sb: i32 = if b >= 128 { b as i32 - 256 } else { b as i32 };
    proof {
        assert(-128 * 128 <= sa * sb <= 128 * 128) by (nonlinear_arith)
            requires
                -128 <= sa <= 127,
                -128 <= sb <= 127,
        ;
    }
    sa * sb
}

/// IMUL of AX by a 16-bit operand, both signed, into DX:AX; carry and
/// overflow are set when the product does not fit in a signed word.
pub fn imul_word(cpu: &mut CPU, get_op: operand::Word) -> (r: usize)
    requires
        old(cpu).wf(),
    ensures
        final(cpu).wf(),
        ({
            let s = old(cpu)@;
            let p = signed(s.regs.ax as int, Width::Word) * signed(word_value(s, get_op) as int, Width::Word);
            let u = (p + 0x1_0000_0000) % 0x1_0000_0000;
            let wide = !(-0x8000 <= p < 0x8000);
            final(cpu)@ == s.with_reg(register::Word::AX, (u % 0x1_0000) as u16).with_reg(
                register::Word::DX,
                (u / 0x1_0000) as u16,
            ).with_flags(Flags { carry: wide, overflow: wide, ..s.flags })
        }),
        r == 128 + word_ea(get_op),
{
    let b = cpu.read_word(&get_op);
    let a = cpu.regs.ax;
    let (p, u) = signed_product_word(a, b);
    cpu.regs.ax = (u % 0x1_0000) as u16;
    cpu.regs.dx = (u / 0x1_0000) as u16;
    let wide = !(-0x8000 <= p && p < 0x8000);
    cpu.flags.carry = wide;
    cpu.flags.overflow = wide;
    128 + word_penalty(&get_op) as usize
}

fn signed_product_word(a: u16, b: u16) -> (r: (i64, i64))
    ensures
        r.0 == signed(a as int, Width::Word) * signed(b as int, Width::Word),
        r.1 == (r.0 + 0x1_0000_0000) % 0x1_0000_0000,
        0 <= r.1 < 0x1_0000_0000,
{
    let sa: i64 = if a >= 0x8000 { a as i64 - 0x1_0000 } else { a as i64 };
    let sb: i64 = if b >= 0x8000 { b as i64 - 0x1_0000 } else { b as i64 };
    proof {
        assert(-0x8000 * 0x8000 <= sa * sb <= 0x8000 * 0x8000) by (nonlinear_arith)
            requires
                -0x8000 <= sa <= 0x7FFF,
                -0x8000 <= sb <= 0x7FFF,
        ;
    }
    let p = sa * sb;
    (p, (p + 0x1_0000_0000) % 0x1_0000_0000)
}

/// What a signed 16-bit divide of DX:AX does: `None` when the divisor is
/// zero or the quotient is outside -32767..=32767, else quotient and
/// remainder.
pub open spec fn idiv_word_result(dx: u16, ax: u16, d: u16) -> Option<(int, int)> {
    let u = dx * 0x1_0000 + ax;
    let n = if u >= 0x8000_0000 { u - 0x1_0000_0000 } else { u };
    let dv = signed(d as int, Width::Word);
    if dv == 0 {
        None
    } else {
        let (q, m) = trunc_div(n, dv);
        if q < -32767 || q > 32767 {
            None
        } else {
            Some((q, m))
        }
    }
}

fn signed_divide_word(dx: u16, ax: u16, d: u16) -> (r: Option<(i64, i64)>)
    ensures
        match idiv_word_result(dx, ax, d) {
            None => r is None,
            Some((q, m)) => r == Some((q as i64, m as i64)) && -32767 <= q <= 32767 && -0x8000 < m < 0x8000,
        },
{
    let u = dx as i64 * 0x1_0000 + ax as i64;
    let n: i64 = if u >= 0x8000_0000 { u - 0x1_0000_0000 } else { u };
    let dv: i64 = if d >= 0x8000 { d as i64 - 0x1_0000 } else { d as i64 };
    if dv == 0 {
        return None;
    }
    let an: u64 = if n < 0 { (-n) as u64 } else { n as u64 };
    let ad: u64 = if dv < 0 { (-dv) as u64 } else { dv as u64 };
    let qa = an / ad;
    if qa > 0x8000 {
        return None;
    }
    let q: i64 = if (n < 0) != (dv < 0) { -(qa as i64) } else { qa as i64 };
    if q < -32767 || q > 32767 {
        return None;
    }
    proof {
        assert(-32767 * 0x8000 <= q * dv <= 32767 * 0x8000) by (nonlinear_arith)
            requires
                -32767 <= q <= 32767,
                -0x8000 <= dv <= 0x7FFF,
        ;
        lemma_trunc_remainder_word(n as int, dv as int, qa as int);
    }
    let m: i64 = n - q * dv;
    Some((q, m))
}

proof fn lemma_trunc_remainder_word(n: int, d: int, qa: int)
    requires
        d != 0,
        -0x8000 <= d < 0x8000,
        qa == (if n < 0 { -n } else { n }) / (if d < 0 { -d } else { d }),
    ensures
        ({
            let q = if (n < 0) != (d < 0) { -qa } else { qa };
            -0x8000 < n - q * d < 0x8000
        }),
{
    let an = if n < 0 { -n } else { n };
    let ad = if d < 0 { -d } else { d };
    let q = if (n < 0) != (d < 0) { -qa } else { qa };
    assert(an == qa * ad + an % ad) by (nonlinear_arith)
        requires
            ad > 0,
            qa == an / ad,
    ;
    assert(0 <= an % ad < ad) by (nonlinear_arith)
        requires
            ad > 0,
    ;
    if n >= 0 {
        assert(q * d == qa * ad) by (nonlinear_arith)
            requires
                q == (if d < 0 { -qa } else { qa }),
                ad == (if d < 0 { -d } else { d }),
        ;
    } else {
        assert(q * d == -(qa * ad)) by (nonlinear_arith)
            requires
                q == (if d < 0 { qa } else { -qa }),
                ad == (if d < 0 { -d } else { d }),
        ;
    }
}

/// IDIV of DX:AX by a 16-bit operand, both signed: AX gets the quotient
/// and DX the remainder; a zero divisor or a quotient outside
/// -32767..=32767 enters interrupt 0 instead.
pub fn idiv_word(cpu: &mut CPU, get_op: operand::Word) -> (r: usize)
    requires
        old(cpu).wf(),
    ensures
        final(cpu).wf(),
        ({
            let s = old(cpu)@;
            match idiv_word_result(s.regs.dx, s.regs.ax, word_value(s, get_op)) {
                None => final(cpu)@ == interrupt_entry(s, 0) && r == 72,
                Some((q, m)) => final(cpu)@ == s.with_reg(register::Word::AX, ((q + 0x1_0000) % 0x1_0000) as u16).with_reg(
                    register::Word::DX,
                    ((m + 0x1_0000) % 0x1_0000) as u16,
                ) && r == 165 + word_ea(get_op),
            }
        }),
{
    let d = cpu.read_word(&get_op);
    match signed_divide_word(cpu.regs.dx, cpu.regs.ax, d) {
        None => enter_interrupt(cpu, 0),
        Some((q, m)) => {
            cpu.regs.ax = ((q + 0x1_0000) % 0x1_0000) as u16;
            cpu.regs.dx = ((m + 0x1_0000) % 0x1_0000) as u16;
            165 + word_penalty(&get_op) as usize
        },
    }
}

/// Signed division truncating toward zero: quotient and remainder, the
/// remainder taking the dividend's sign.
pub open spec fn trunc_div(n: int, d: int) -> (int, int) {
    let an = if n < 0 { -n } else { n };
    let ad = if d < 0 { -d } else { d };
    let q = if (n < 0) != (d < 0) { -(an / ad) } else { an / ad };
    (q, n - q * d)
}

/// What a signed 8-bit divide of AX does: `None` when the divisor is zero or
/// the quotient is outside -127..=127, else quotient and remainder.
pub open spec fn idiv_byte_result(ax: u16, d: u8) -> Option<(int, int)> {
    let n = signed(ax as int, Width::Word);
    let dv = signed(d as int, Width::Byte);
    if dv == 0 {
        None
    } else {
        let (q, m) = trunc_div(n, dv);
        if q < -127 || q > 127 {
            None
        } else {
            Some((q, m))
        }
    }
}

/// IDIV of AX by an 8-bit operand, both signed: AL gets the quotient and AH
/// the remainder; a zero divisor or a quotient outside -127..=127 enters
/// interrupt 0 instead.
pub fn idiv_byte(cpu: &mut CPU, get_op: operand::Byte) -> (r: usize)
    requires
        old(cpu).wf(),
    ensures
        final(cpu).wf(),
        ({
            let s = old(cpu)@;
            match idiv_byte_result(s.regs.ax, byte_value(s, get_op)) {
                None => final(cpu)@ == interrupt_entry(s, 0) && r == 72,
                Some((q, m)) => final(cpu)@ == s.with_reg(
                    register::Word::AX,
                    (((m + 256) % 256) * 256 + (q + 256) % 256) as u16,
                ) && r == 101 + byte_ea(get_op),
            }
        }),
{
    let d = cpu.read_byte(&get_op);
    let ax = cpu.regs.ax;
    match signed_divide(ax, d) {
        None => enter_interrupt(cpu, 0),
        Some((q, m)) => {
            cpu.regs.ax = (((m + 256) % 256) * 256 + (q + 256) % 256) as u16;
            101 + byte_penalty(&get_op) as usize
        },
    }
}

fn signed_divide(ax: u16, d: u8) -> (r: Option<(i32, i32)>)
    ensures
        match idiv_byte_result(ax, d) {
            None => r is None,
            Some((q, m)) => r == Some((q as i32, m as i32)) && -127 <= q <= 127 && -128 < m < 128,
        },
{
    let n: i32 = if ax >= 0x8000 { ax as i32 - 0x1_0000 } else { ax as i32 };
    let dv: i32 = if d >= 128 { d as i32 - 256 } else { d as i32 };
    if dv == 0 {
        return None;
    }
    let an: u32 = if n < 0 { (-n) as u32 } else { n as u32 };
    let ad: u32 = if dv < 0 { (-dv) as u32 } else { dv as u32 };
    let qa = an / ad;
    if qa > 128 {
        return None;
    }
    let q: i32 = if (n < 0) != (dv < 0) { -(qa as i32) } else { qa as i32 };
    if q < -127 || q > 127 {
        return None;
    }
    proof {
        assert(-127 * 128 <= q * dv <= 127 * 128) by (nonlinear_arith)
            requires
                -127 <= q <= 127,
                -128 <= dv <= 127,
        ;
        lemma_trunc_remainder(n as int, dv as int, qa as int);
    }
    let m: i32 = n - q * dv;
    Some((q, m))
}

proof fn lemma_trunc_remainder(n: int, d: int, qa: int)
    requires
        d != 0,
        -0x8000 <= n < 0x8000,
        -128 <= d < 128,
        qa == (if n < 0 { -n } else { n }) / (if d < 0 { -d } else { d }),
    ensures
        ({
            let q = if (n < 0) != (d < 0) { -qa } else { qa };
            -128 < n - q * d < 128
        }),
{
    let an = if n < 0 { -n } else { n };
    let ad = if d < 0 { -d } else { d };
    let q = if (n < 0) != (d < 0) { -qa } else { qa };
    assert(an == qa * ad + an % ad) by (nonlinear_arith)
        requires
            ad > 0,
            qa == an / ad,
    ;
    assert(0 <= an % ad < ad) by (nonlinear_arith)
        requires
            ad > 0,
    ;
    assert(q * d == qa * ad || q * d == -(qa * ad)) by (nonlinear_arith)
        requires
            q == qa || q == -qa,
            d == ad || d == -ad,
    ;
    if n >= 0 {
        assert(q * d == qa * ad) by (nonlinear_arith)
            requires
                q == (if d < 0 { -qa } else { qa }),
                ad == (if d < 0 { -d } else { d }),
        ;
    } else {
        assert(q * d == -(qa * ad)) by (nonlinear_arith)
            requires
                q == (if d < 0 { qa } else { -qa }),
                ad == (if d < 0 { -d } else { d }),
        ;
    }
}

/// AAM: AH gets AL divided by the base, AL the remainder; zero, sign and
/// parity follow AL. A zero base enters interrupt 0.
pub fn aam(cpu: &mut CPU, base: u8) -> (r: usize)
    requires
        old(cpu).wf(),
    ensures
        final(cpu).wf(),
        ({
            let s = old(cpu)@;
            let al = s.regs.byte(register::Byte::AL);
            if base == 0 {
                final(cpu)@ == interrupt_entry(s, 0) && r == 72
            } else {
                let q = al / base;
                let m = al % base;
                final(cpu)@ == s.with_reg(register::Word::AX, (q * 256 + m) as u16).with_flags(
                    s.flags.with_szp(m as int, Width::Byte),
                ) && r == 83
            }
        }),
{
    if base == 0 {
        return enter_interrupt(cpu, 0);
    }
    let al = cpu.regs.get_byte(&register::Byte::AL);
    let q = al / base;
    let m = al % base;
    cpu.regs.ax = q as u16 * 256 + m as u16;
    set_szp_byte(&mut cpu.flags, m);
    83
}

/// AAD: AL becomes AL plus AH times the base (low byte), AH zero; zero,
/// sign and parity follow AL.
pub fn aad(cpu: &mut CPU, base: u8) -> (r: usize)
    requires
        old(cpu).wf(),
    ensures
        final(cpu).wf(),
        ({
            let s = old(cpu)@;
            let v = ((s.regs.byte(register::Byte::AL) + s.regs.byte(register::Byte::AH) * base) % 256) as u8;
            final(cpu)@ == s.with_reg(register::Word::AX, v as u16).with_flags(
                s.flags.with_szp(v as int, Width::Byte),
            ) && r == 60
        }),
{
    let al = cpu.regs.get_byte(&register::Byte::AL) as u32;
    let ah = cpu.regs.get_byte(&register::Byte::AH) as u32;
    proof {
        assert(ah * (base as u32) <= 255 * 255) by (nonlinear_arith)
            requires
                ah <= 255,
                base <= 255,
        ;
    }
    let v = ((al + ah * base as u32) % 256) as u8;
    cpu.regs.ax = v as u16;
    set_szp_byte(&mut cpu.flags, v);
    60
}

fn set_szp_byte(f: &mut Flags, v: u8)
    ensures
        *final(f) == old(f).with_szp(v as int, Width::Byte),
{
    f.zero = v == 0;
    f.sign = v >= 0x80;
    f.parity = crate::flags::parity(v as u16);
}

/// DAA and DAS: the decimal adjustment of AL after an addition or a
/// subtraction, with the carry and adjust flags it sets.
pub open spec fn decimal_adjust(al: u8, cf: bool, af: bool, add: bool) -> (u8, bool, bool) {
    let low_fix = al % 16 > 9 || af;
    let high_fix = al > 0x99 || cf;
    let a1: int = if low_fix { if add { al + 6 } else { al - 6 } } else { al as int };
    let a2: int = if high_fix { if add { a1 + 0x60 } else { a1 - 0x60 } } else { a1 };
    ((((a2 % 256) + 256) % 256) as u8, high_fix, low_fix)
}

fn decimal_adjusted(al: u8, cf: bool, af: bool, add: bool) -> (r: (u8, bool, bool))
    ensures
        r == decimal_adjust(al, cf, af, add),
{
    let a = al as i32;
    let low_fix = a % 16 > 9 || af;
    let high_fix = a > 0x99 || cf;
    let a1: i32 = if low_fix { if add { a + 6 } else { a - 6 } } else { a };
    let a2: i32 = if high_fix { if add { a1 + 0x60 } else { a1 - 0x60 } } else { a1 };
    ((((a2 % 256) + 256) % 256) as u8, high_fix, low_fix)
}

/// DAA (when `add`) or DAS: adjusts AL to two decimal digits; carry and
/// adjust as the adjustment goes, zero, sign and parity from AL.
pub fn decimal_adjust_al(cpu: &mut CPU, add: bool) -> (r: usize)
    requires
        old(cpu).wf(),
    ensures
        final(cpu).wf(),
        ({
            let s = old(cpu)@;
            let (v, cf, af) = decimal_adjust(s.regs.byte(register::Byte::AL), s.flags.carry, s.flags.adjust, add);
            final(cpu)@ == (MachineState {
                regs: s.regs.with_byte(register::Byte::AL, v),
                flags: Flags { carry: cf, adjust: af, ..s.flags.with_szp(v as int, Width::Byte) },
                ..s
            }) && r == 4
        }),
{
    let al = cpu.regs.get_byte(&register::Byte::AL);
    let (v, high_fix, low_fix) = decimal_adjusted(al, cpu.flags.carry, cpu.flags.adjust, add);
    cpu.regs.set_byte(&register::Byte::AL, v);
    set_szp_byte(&mut cpu.flags, v);
    cpu.flags.carry = high_fix;
    cpu.flags.adjust = low_fix;
    4
}

/// AAA (when `add`) or AAS: adjusts AL to one unpacked decimal digit,
/// carrying into (or borrowing from) AH; carry and adjust show whether it
/// did.
pub fn ascii_adjust(cpu: &mut CPU, add: bool) -> (r: usize)
    requires
        old(cpu).wf(),
    ensures
        final(cpu).wf(),
        ({
            let s = old(cpu)@;
            let al = s.regs.byte(register::Byte::AL);
            let ah = s.regs.byte(register::Byte::AH);
            let fix = al % 16 > 9 || s.flags.adjust;
            let nal: int = if fix { if add { al + 6 } else { al - 6 } } else { al as int };
            let nah: int = if fix { if add { ah + 1 } else { ah - 1 } } else { ah as int };
            let v = ((nah + 256) % 256) * 256 + ((nal + 256) % 256) % 16;
            final(cpu)@ == s.with_reg(register::Word::AX, v as u16).with_flags(
                Flags { carry: fix, adjust: fix, ..s.flags },
            ) && r == 8
        }),
{
    let al = cpu.regs.get_byte(&register::Byte::AL) as i32;
    let ah = cpu.regs.get_byte(&register::Byte::AH) as i32;
    let fix = al % 16 > 9 || cpu.flags.adjust;
    let nal: i32 = if fix { if add { al + 6 } else { al - 6 } } else { al };
    let nah: i32 = if fix { if add { ah + 1 } else { ah - 1 } } else { ah };
    cpu.regs.ax = (((nah + 256) % 256) * 256 + ((nal + 256) % 256) % 16) as u16;
    cpu.flags.carry = fix;
    cpu.flags.adjust = fix;
    8
}

} // verus!
