//! The opcode dispatcher: prefixes, the primary table and the group
//! opcodes, each handing over to the instruction it names.
use vstd::prelude::*;
use crate::arith;
use crate::cpu::CPU;
use crate::decode::{byte_reg, byte_reg_of, decode_rm, fetch_byte, fetch_word, rm_byte, rm_word, seg_reg, word_reg, word_reg_of, Rm};
use crate::flag_ops;
use crate::flags::{flags_of_word, AluOp, Flags, ShiftOp};
use crate::jump;
use crate::memory::Segment;
use crate::operand;
use crate::register;
use crate::string::{self, StringOp};
use crate::transfer::{self, PortAccess};
use crate::state::MachineState;

verus! {

/// What executing one instruction came to.
#[derive(Clone, Copy, Debug, PartialEq, Eq, Structural)]
pub enum Step {
    /// Done in this many clock cycles.
    Done(usize),
    /// Done in this many cycles, with a port access for the board.
    Port(usize, PortAccess),
    /// HLT: no further steps until an interrupt.
    Halt(usize),
    /// An opcode (or group form) this engine does not execute. The 8088 has
    /// no invalid-opcode interrupt and no vector is assigned to one, so the
    /// opcode is handed back to the caller, which stops the machine.
    Unsupported(u8),
}

/// Whether condition code `cc` of a conditional jump holds.
pub open spec fn condition_holds(f: Flags, cc: u8) -> bool {
    let c = cc % 16;
    let base = if c / 2 == 0 {
        f.overflow
    } else if c / 2 == 1 {
        f.carry
    } else if c / 2 == 2 {
        f.zero
    } else if c / 2 == 3 {
        f.carry || f.zero
    } else if c / 2 == 4 {
        f.sign
    } else if c / 2 == 5 {
        f.parity
    } else if c / 2 == 6 {
        f.sign != f.overflow
    } else {
        f.zero || (f.sign != f.overflow)
    };
    if c % 2 == 0 {
        base
    } else {
        !base
    }
}

pub fn condition(f: &Flags, cc: u8) -> (r: bool)
    ensures
        r == condition_holds(*f, cc),
{
    let c = cc % 16;
    let base = if c / 2 == 0 {
        f.overflow
    } else if c / 2 == 1 {
        f.carry
    } else if c / 2 == 2 {
        f.zero
    } else if c / 2 == 3 {
        f.carry || f.zero
    } else if c / 2 == 4 {
        f.sign
    } else if c / 2 == 5 {
        f.parity
    } else if c / 2 == 6 {
        f.sign != f.overflow
    } else {
        f.zero || (f.sign != f.overflow)
    };
    if c % 2 == 0 {
        base
    } else {
        !base
    }
}

/// The operation that bits 5:3 of an arithmetic opcode (or the reg field
/// of a group-1 ModR/M byte) select.
pub open spec fn alu_op_of(i: u8) -> AluOp {
    let k = i % 8;
    if k == 0 {
        AluOp::Add
    } else if k == 1 {
        AluOp::Or
    } else if k == 2 {
        AluOp::Adc
    } else if k == 3 {
        AluOp::Sbb
    } else if k == 4 {
        AluOp::And
    } else if k == 5 {
        AluOp::Sub
    } else if k == 6 {
        AluOp::Xor
    } else {
        AluOp::Cmp
    }
}

/// The state after an arithmetic or logical operation on AL with the
/// immediate byte at CS:IP (opcodes 0x04, 0x0C, ... 0x3C).
pub open spec fn alu_al_imm(s: MachineState, op: AluOp) -> MachineState {
    let imm = s.byte_at(Segment::CS, s.ip) as u16;
    let u = s.with_ip(crate::state::wrap_add(s.ip, 1));
    let a = u.regs.byte(register::Byte::AL) as u16;
    let t = u.with_flags(u.flags.after_alu(op, a, imm, crate::flags::Width::Byte));
    if op == AluOp::Cmp {
        t
    } else {
        crate::cpu::with_byte_op(
            t,
            operand::Byte::Reg(register::Byte::AL),
            crate::flags::alu_result(op, a, imm, u.flags.carry, crate::flags::Width::Byte) as u8,
        )
    }
}

fn alu_of(i: u8) -> (r: AluOp)
    ensures
        r == alu_op_of(i),
        i % 8 == 0 ==> r == AluOp::Add,
        i % 8 == 1 ==> r == AluOp::Or,
        i % 8 == 2 ==> r == AluOp::Adc,
        i % 8 == 3 ==> r == AluOp::Sbb,
        i % 8 == 4 ==> r == AluOp::And,
        i % 8 == 5 ==> r == AluOp::Sub,
        i % 8 == 6 ==> r == AluOp::Xor,
        i % 8 == 7 ==> r == AluOp::Cmp,
{
    let k = i % 8;
    if k == 0 {
        AluOp::Add
    } else if k == 1 {
        AluOp::Or
    } else if k == 2 {
        AluOp::Adc
    } else if k == 3 {
        AluOp::Sbb
    } else if k == 4 {
        AluOp::And
    } else if k == 5 {
        AluOp::Sub
    } else if k == 6 {
        AluOp::Xor
    } else {
        AluOp::Cmp
    }
}

fn shift_of(i: u8) -> (r: ShiftOp)
    ensures
        i % 8 == 0 ==> r == ShiftOp::Rol,
        i % 8 == 1 ==> r == ShiftOp::Ror,
        i % 8 == 2 ==> r == ShiftOp::Rcl,
        i % 8 == 3 ==> r == ShiftOp::Rcr,
        i % 8 == 4 || i % 8 == 6 ==> r == ShiftOp::Shl,
        i % 8 == 5 ==> r == ShiftOp::Shr,
        i % 8 == 7 ==> r == ShiftOp::Sar,
{
    let k = i % 8;
    if k == 0 {
        ShiftOp::Rol
    } else if k == 1 {
        ShiftOp::Ror
    } else if k == 2 {
        ShiftOp::Rcl
    } else if k == 3 {
        ShiftOp::Rcr
    } else if k == 4 || k == 6 {
        ShiftOp::Shl
    } else if k == 5 {
        ShiftOp::Shr
    } else {
        ShiftOp::Sar
    }
}

/// The string primitive of a string opcode.
pub open spec fn string_op_of(op: u8) -> StringOp {
    if op == 0xA5 {
        StringOp::Movsw
    } else if op == 0xA6 {
        StringOp::Cmpsb
    } else if op == 0xA7 {
        StringOp::Cmpsw
    } else if op == 0xAA {
        StringOp::Stosb
    } else if op == 0xAB {
        StringOp::Stosw
    } else if op == 0xAC {
        StringOp::Lodsb
    } else if op == 0xAD {
        StringOp::Lodsw
    } else if op == 0xAE {
        StringOp::Scasb
    } else if op == 0xAF {
        StringOp::Scasw
    } else {
        StringOp::Movsb
    }
}

/// The opcodes whose whole effect `simple_effect` states.
pub open spec fn simple_op(op: u8) -> bool {
    op == 0x90 || (0x9C <= op <= 0x9F) || (0xA4 <= op <= 0xA7) || (0xAA <= op <= 0xAF) || op == 0xC3
        || op == 0xCB || op == 0xCC || op == 0xCF || op == 0xD7 || (0xEC <= op <= 0xEF) || op == 0xF5
        || op == 0xC2 || op == 0xCA || (0xE4 <= op <= 0xE9) || op == 0xEB
}

/// The result and new state of an instruction without a ModR/M byte, run
/// on `s` (IP already past the opcode): NOP, PUSHF, POPF, SAHF, LAHF, the
/// string primitives, RET and RETF (with or without an SP delta), INT 3,
/// IRET, XLAT, IN and OUT (through DX or an immediate port), CMC, and the
/// relative CALL, JMP and short JMP.
/// `None` for every other opcode.
#[verifier::opaque]
pub open spec fn simple_effect(s: MachineState, op: u8) -> Option<(Step, MachineState)> {
    if op == 0x90 {
        Some((Step::Done(3), s))
    } else if op == 0x9C {
        Some((Step::Done(14), s.push(s.flags.word())))
    } else if op == 0x9D {
        Some((Step::Done(12), s.pop().with_flags(flags_of_word(s.top()))))
    } else if op == 0x9E {
        let f = flags_of_word(s.regs.byte(register::Byte::AH) as u16);
        Some((
            Step::Done(4),
            s.with_flags(Flags { carry: f.carry, parity: f.parity, adjust: f.adjust, zero: f.zero, sign: f.sign, ..s.flags }),
        ))
    } else if op == 0x9F {
        Some((
            Step::Done(4),
            MachineState { regs: s.regs.with_byte(register::Byte::AH, (s.flags.word() % 256) as u8), ..s },
        ))
    } else if (0xA4 <= op <= 0xA7) || (0xAA <= op <= 0xAF) {
        Some((Step::Done(string::string_cycles(string_op_of(op))), string::string_step(s, string_op_of(op))))
    } else if op == 0xC3 {
        Some((Step::Done(20), s.pop().with_ip(s.top())))
    } else if op == 0xCB {
        Some((Step::Done(34), jump::far_return(s)))
    } else if op == 0xCC {
        Some((Step::Done(72), jump::interrupt_entry(s, 3)))
    } else if op == 0xCF {
        let t = jump::far_return(s);
        Some((Step::Done(44), t.pop().with_flags(flags_of_word(t.top()))))
    } else if op == 0xD7 {
        let v = s.byte_at(Segment::DS, crate::state::wrap_add(s.regs.bx, s.regs.byte(register::Byte::AL) as u16));
        Some((Step::Done(11), MachineState { regs: s.regs.with_byte(register::Byte::AL, v), segment: Segment::DS, ..s }))
    } else if op == 0xEC {
        Some((Step::Port(12, PortAccess::InByte(s.regs.dx)), s))
    } else if op == 0xED {
        Some((Step::Port(12, PortAccess::InWord(s.regs.dx)), s))
    } else if op == 0xEE {
        Some((Step::Port(12, PortAccess::OutByte(s.regs.dx, s.regs.byte(register::Byte::AL))), s))
    } else if op == 0xEF {
        Some((Step::Port(12, PortAccess::OutWord(s.regs.dx, s.regs.ax)), s))
    } else if op == 0xF5 {
        Some((Step::Done(2), s.with_flags(Flags { carry: !s.flags.carry, ..s.flags })))
    } else if op == 0xC2 || op == 0xCA {
        let n = s.word_at(Segment::CS, s.ip);
        let u = s.with_ip(crate::state::wrap_add(s.ip, 2));
        let t = if op == 0xC2 { u.pop().with_ip(u.top()) } else { jump::far_return(u) };
        Some((
            Step::Done(if op == 0xC2 { 24 } else { 33 }),
            t.with_reg(register::Word::SP, crate::state::wrap_add(t.regs.sp, n)),
        ))
    } else if 0xE4 <= op <= 0xE7 {
        let port = s.byte_at(Segment::CS, s.ip) as u16;
        let u = s.with_ip(crate::state::wrap_add(s.ip, 1));
        let access = if op == 0xE4 {
            PortAccess::InByte(port)
        } else if op == 0xE5 {
            PortAccess::InWord(port)
        } else if op == 0xE6 {
            PortAccess::OutByte(port, s.regs.byte(register::Byte::AL))
        } else {
            PortAccess::OutWord(port, s.regs.ax)
        };
        Some((Step::Port(14, access), u))
    } else if op == 0xE8 || op == 0xE9 {
        let rel = s.word_at(Segment::CS, s.ip) as i16 as int;
        let u = s.with_ip(crate::state::wrap_add(s.ip, 2));
        if op == 0xE8 {
            Some((Step::Done(21), u.push(u.ip).with_ip(jump::rel_target(u.ip, rel))))
        } else {
            Some((Step::Done(15), u.with_ip(jump::rel_target(u.ip, rel))))
        }
    } else if op == 0xEB {
        let rel = s.byte_at(Segment::CS, s.ip) as i8 as int;
        let u = s.with_ip(crate::state::wrap_add(s.ip, 1));
        Some((Step::Done(15), u.with_ip(jump::rel_target(u.ip, rel))))
    } else {
        None
    }
}

proof fn lemma_simple_ops(s: MachineState, op: u8)
    ensures
        simple_effect(s, op) is Some ==> simple_op(op),
{
    reveal(simple_effect);
}

fn string_of(op: u8) -> (r: Option<StringOp>)
    ensures
        r is Some <==> (0xA4 <= op <= 0xA7 || 0xAA <= op <= 0xAF),
        r is Some ==> r == Some(string_op_of(op)),
{
    match op {
        0xA4 => Some(StringOp::Movsb),
        0xA5 => Some(StringOp::Movsw),
        0xA6 => Some(StringOp::Cmpsb),
        0xA7 => Some(StringOp::Cmpsw),
        0xAA => Some(StringOp::Stosb),
        0xAB => Some(StringOp::Stosw),
        0xAC => Some(StringOp::Lodsb),
        0xAD => Some(StringOp::Lodsw),
        0xAE => Some(StringOp::Scasb),
        0xAF => Some(StringOp::Scasw),
        _ => None,
    }
}

/// Opcodes 0x00 to 0x3F whose low three bits are 0 to 5: an arithmetic or
/// logical operation, picked by bits 5:3, in one of six operand forms.
fn run_alu_form(cpu: &mut CPU, op: u8, seg_override: Option<Segment>) -> (r: Step)
    requires
        old(cpu).wf(),
        op < 0x40,
        op % 8 < 6,
    ensures
        final(cpu).wf(),
        op % 8 == 4 ==> r == Step::Done(4) && final(cpu)@ == alu_al_imm(old(cpu)@, alu_op_of(op / 8)),
{
    let alu = alu_of(op / 8);
    let form = op % 8;
    if form < 4 {
        let modrm = fetch_byte(cpu);
        let reg = (modrm / 8) % 8;
        let rm = decode_rm(cpu, modrm, seg_override);
        if form == 0 {
            Step::Done(arith::alu_byte(cpu, alu, rm_byte(rm), operand::Byte::Reg(byte_reg(reg))))
        } else if form == 1 {
            Step::Done(arith::alu_word(cpu, alu, rm_word(rm), operand::Word::Reg(word_reg(reg))))
        } else if form == 2 {
            Step::Done(arith::alu_byte(cpu, alu, operand::Byte::Reg(byte_reg(reg)), rm_byte(rm)))
        } else {
            Step::Done(arith::alu_word(cpu, alu, operand::Word::Reg(word_reg(reg)), rm_word(rm)))
        }
    } else if form == 4 {
        let imm = fetch_byte(cpu);
        Step::Done(arith::alu_byte(cpu, alu, operand::Byte::Reg(register::Byte::AL), operand::Byte::Imm(imm)))
    } else {
        let imm = fetch_word(cpu);
        Step::Done(arith::alu_word(cpu, alu, operand::Word::Reg(register::Word::AX), operand::Word::Imm(imm)))
    }
}

/// Opcodes 0x80 to 0x83: an arithmetic or logical operation with an
/// immediate (0x83 sign-extends a byte to a word).
fn run_group1(cpu: &mut CPU, op: u8, seg_override: Option<Segment>) -> (r: Step)
    requires
        old(cpu).wf(),
        0x80 <= op <= 0x83,
    ensures
        final(cpu).wf(),
{
    let modrm = fetch_byte(cpu);
    let alu = alu_of((modrm / 8) % 8);
    let rm = decode_rm(cpu, modrm, seg_override);
    if op == 0x80 || op == 0x82 {
        let imm = fetch_byte(cpu);
        Step::Done(arith::alu_byte(cpu, alu, rm_byte(rm), operand::Byte::Imm(imm)))
    } else if op == 0x81 {
        let imm = fetch_word(cpu);
        Step::Done(arith::alu_word(cpu, alu, rm_word(rm), operand::Word::Imm(imm)))
    } else {
        let b = fetch_byte(cpu);
        let imm: u16 = if b >= 128 { 0xFF00 + b as u16 } else { b as u16 };
        Step::Done(arith::alu_word(cpu, alu, rm_word(rm), operand::Word::Imm(imm)))
    }
}

/// Opcodes 0xD0 to 0xD3: a shift or rotate by one or by CL.
fn run_group2(cpu: &mut CPU, op: u8, seg_override: Option<Segment>) -> (r: Step)
    requires
        old(cpu).wf(),
        0xD0 <= op <= 0xD3,
    ensures
        final(cpu).wf(),
{
    let modrm = fetch_byte(cpu);
    let shift = shift_of((modrm / 8) % 8);
    let rm = decode_rm(cpu, modrm, seg_override);
    let count = if op < 0xD2 { operand::Byte::Imm(1) } else { operand::Byte::Reg(register::Byte::CL) };
    if op % 2 == 0 {
        Step::Done(arith::shift_byte(cpu, shift, rm_byte(rm), count))
    } else {
        Step::Done(arith::shift_word(cpu, shift, rm_word(rm), count))
    }
}

/// Opcodes 0xF6 and 0xF7: TEST with an immediate, NOT, NEG, MUL, IMUL, DIV
/// and IDIV.
fn run_group3(cpu: &mut CPU, op: u8, seg_override: Option<Segment>) -> (r: Step)
    requires
        old(cpu).wf(),
        op == 0xF6 || op == 0xF7,
    ensures
        final(cpu).wf(),
{
    let modrm = fetch_byte(cpu);
    let sub = (modrm / 8) % 8;
    let rm = decode_rm(cpu, modrm, seg_override);
    if op == 0xF6 {
        let dst = rm_byte(rm);
        if sub == 0 || sub == 1 {
            let imm = fetch_byte(cpu);
            let a = cpu.read_byte(&dst) as u16;
            cpu.flags.alu(AluOp::And, a, imm as u16, crate::flags::Width::Byte);
            Step::Done(5)
        } else if sub == 2 {
            Step::Done(arith::not_byte(cpu, dst))
        } else if sub == 3 {
            let a = cpu.read_byte(&dst) as u16;
            let r = cpu.flags.neg(a, crate::flags::Width::Byte);
            cpu.write_byte(&dst, r as u8);
            Step::Done(3)
        } else if sub == 4 {
            Step::Done(arith::mul_byte(cpu, dst))
        } else if sub == 5 {
            Step::Done(arith::imul_byte(cpu, dst))
        } else if sub == 6 {
            Step::Done(arith::div_byte(cpu, dst))
        } else {
            Step::Done(arith::idiv_byte(cpu, dst))
        }
    } else {
        let dst = rm_word(rm);
        if sub == 0 || sub == 1 {
            let imm = fetch_word(cpu);
            let a = cpu.read_word(&dst);
            cpu.flags.alu(AluOp::And, a, imm, crate::flags::Width::Word);
            Step::Done(5)
        } else if sub == 2 {
            Step::Done(arith::not_word(cpu, dst))
        } else if sub == 3 {
            let a = cpu.read_word(&dst);
            let r = cpu.flags.neg(a, crate::flags::Width::Word);
            cpu.write_word(&dst, r);
            Step::Done(3)
        } else if sub == 4 {
            Step::Done(arith::mul_word(cpu, dst))
        } else if sub == 5 {
            Step::Done(arith::imul_word(cpu, dst))
        } else if sub == 6 {
            Step::Done(arith::div_word(cpu, dst))
        } else {
            Step::Done(arith::idiv_word(cpu, dst))
        }
    }
}

/// Opcodes 0xFE and 0xFF: INC and DEC, and for words indirect CALL and JMP
/// (near and far) and PUSH.
fn run_group45(cpu: &mut CPU, op: u8, seg_override: Option<Segment>) -> (r: Step)
    requires
        old(cpu).wf(),
        op == 0xFE || op == 0xFF,
    ensures
        final(cpu).wf(),
{
    let modrm = fetch_byte(cpu);
    let sub = (modrm / 8) % 8;
    let rm = decode_rm(cpu, modrm, seg_override);
    if op == 0xFE {
        if sub < 2 {
            Step::Done(arith::inc_dec_byte(cpu, rm_byte(rm), sub == 0))
        } else {
            Step::Unsupported(op)
        }
    } else {
        let dst = rm_word(rm);
        if sub < 2 {
            Step::Done(arith::inc_dec_word(cpu, dst, sub == 0))
        } else if sub == 2 {
            Step::Done(jump::call_word(cpu, dst))
        } else if sub == 3 && matches!(rm, Rm::Mem { .. }) {
            Step::Done(jump::call_far(cpu, dst))
        } else if sub == 4 {
            Step::Done(jump::jmp_word(cpu, dst))
        } else if sub == 5 && matches!(rm, Rm::Mem { .. }) {
            Step::Done(jump::jmp_far(cpu, dst))
        } else if sub == 6 {
            Step::Done(flag_ops::push(cpu, dst))
        } else {
            Step::Unsupported(op)
        }
    }
}

/// The MOV forms 0x88 to 0x8E.
fn run_mov_form(cpu: &mut CPU, op: u8, seg_override: Option<Segment>) -> (r: Step)
    requires
        old(cpu).wf(),
        0x88 <= op <= 0x8E,
    ensures
        final(cpu).wf(),
{
    let modrm = fetch_byte(cpu);
    let reg = (modrm / 8) % 8;
    let rm = decode_rm(cpu, modrm, seg_override);
    if op == 0x88 {
        Step::Done(transfer::mov_byte(cpu, rm_byte(rm), operand::Byte::Reg(byte_reg(reg))))
    } else if op == 0x89 {
        Step::Done(transfer::mov_word(cpu, rm_word(rm), operand::Word::Reg(word_reg(reg))))
    } else if op == 0x8A {
        Step::Done(transfer::mov_byte(cpu, operand::Byte::Reg(byte_reg(reg)), rm_byte(rm)))
    } else if op == 0x8B {
        Step::Done(transfer::mov_word(cpu, operand::Word::Reg(word_reg(reg)), rm_word(rm)))
    } else if op == 0x8C {
        Step::Done(transfer::mov_word(cpu, rm_word(rm), operand::Word::Seg(seg_reg(reg))))
    } else if op == 0x8D {
        if matches!(rm, Rm::Mem { .. }) {
            Step::Done(transfer::lea_word(cpu, operand::Word::Reg(word_reg(reg)), rm_word(rm)))
        } else {
            Step::Unsupported(op)
        }
    } else {
        Step::Done(transfer::mov_word(cpu, operand::Word::Seg(seg_reg(reg)), rm_word(rm)))
    }
}

/// Opcodes with no 8088 instruction: 0x0F, the 0x60 to 0x6F block, and
/// the 80186 forms 0xC0, 0xC1, 0xC8, 0xC9, plus 0xD6 and 0xF1.
pub open spec fn unassigned(op: u8) -> bool {
    op == 0x0F || (0x60 <= op <= 0x6F) || op == 0xC0 || op == 0xC1 || op == 0xC8 || op == 0xC9
        || op == 0xD6 || op == 0xF1
}

fn exec_push_reg(cpu: &mut CPU, op: u8) -> (r: Step)
    requires
        old(cpu).wf(),
        0x50 <= op <= 0x57,
    ensures
        final(cpu).wf(),
        r == Step::Done(15) && final(cpu)@ == old(cpu)@.push(
            old(cpu)@.regs.word(word_reg_of(op % 8)),
        ),
{
    Step::Done(flag_ops::push(cpu, operand::Word::Reg(word_reg(op % 8))))
}

fn exec_pop_reg(cpu: &mut CPU, op: u8) -> (r: Step)
    requires
        old(cpu).wf(),
        0x58 <= op <= 0x5F,
    ensures
        final(cpu).wf(),
        r == Step::Done(12) && final(cpu)@ == crate::cpu::with_word_op(
            MachineState { segment: old(cpu)@.segment, ..old(cpu)@.pop() },
            operand::Word::Reg(word_reg_of(op % 8)),
            old(cpu)@.top(),
        ),
{
    Step::Done(flag_ops::pop(cpu, operand::Word::Reg(word_reg(op % 8))))
}

fn exec_jcc(cpu: &mut CPU, op: u8) -> (r: Step)
    requires
        old(cpu).wf(),
        0x70 <= op <= 0x7F,
    ensures
        final(cpu).wf(),
        ({
            let s = old(cpu)@;
            let rel = s.byte_at(Segment::CS, s.ip) as i8;
            let u = s.with_ip(crate::state::wrap_add(s.ip, 1));
            if condition_holds(s.flags, op) {
                r == Step::Done(16) && final(cpu)@ == u.with_ip(jump::rel_target(u.ip, rel as int))
            } else {
                r == Step::Done(4) && final(cpu)@ == u
            }
        }),
{
    let rel = fetch_byte(cpu) as i8;
    let taken = condition(&cpu.flags, op);
    Step::Done(jump::jmp_relative(cpu, rel, taken))
}

fn exec_mov_imm8(cpu: &mut CPU, op: u8) -> (r: Step)
    requires
        old(cpu).wf(),
        0xB0 <= op <= 0xB7,
    ensures
        final(cpu).wf(),
        ({
            let s = old(cpu)@;
            let u = s.with_ip(crate::state::wrap_add(s.ip, 1));
            r == Step::Done(4) && final(cpu)@ == crate::cpu::with_byte_op(
                u,
                operand::Byte::Reg(byte_reg_of(op % 8)),
                s.byte_at(Segment::CS, s.ip),
            )
        }),
{
    let imm = fetch_byte(cpu);
    Step::Done(transfer::mov_byte(cpu, operand::Byte::Reg(byte_reg(op % 8)), operand::Byte::Imm(imm)))
}

fn exec_mov_imm16(cpu: &mut CPU, op: u8) -> (r: Step)
    requires
        old(cpu).wf(),
        0xB8 <= op <= 0xBF,
    ensures
        final(cpu).wf(),
        ({
            let s = old(cpu)@;
            let u = s.with_ip(crate::state::wrap_add(s.ip, 2));
            r == Step::Done(4) && final(cpu)@ == crate::cpu::with_word_op(
                u,
                operand::Word::Reg(word_reg_of(op % 8)),
                s.word_at(Segment::CS, s.ip),
            )
        }),
{
    let imm = fetch_word(cpu);
    Step::Done(transfer::mov_word(cpu, operand::Word::Reg(word_reg(op % 8)), operand::Word::Imm(imm)))
}

/// One instruction after its prefixes.
pub fn execute(cpu: &mut CPU, op: u8, seg_override: Option<Segment>) -> (r: Step)
    requires
        old(cpu).wf(),
    ensures
        final(cpu).wf(),
        unassigned(op) ==> r == Step::Unsupported(op) && final(cpu)@ == old(cpu)@,
        op < 0x40 && op % 8 == 4 ==> r == Step::Done(4) && final(cpu)@ == alu_al_imm(
            old(cpu)@,
            alu_op_of(op / 8),
        ),
        0x50 <= op <= 0x57 ==> r == Step::Done(15) && final(cpu)@ == old(cpu)@.push(
            old(cpu)@.regs.word(word_reg_of(op % 8)),
        ),
        0x58 <= op <= 0x5F ==> r == Step::Done(12) && final(cpu)@ == crate::cpu::with_word_op(
            MachineState { segment: old(cpu)@.segment, ..old(cpu)@.pop() },
            operand::Word::Reg(word_reg_of(op % 8)),
            old(cpu)@.top(),
        ),
        0x70 <= op <= 0x7F ==> {
            let s = old(cpu)@;
            let rel = s.byte_at(Segment::CS, s.ip) as i8;
            let u = s.with_ip(crate::state::wrap_add(s.ip, 1));
            if condition_holds(s.flags, op) {
                r == Step::Done(16) && final(cpu)@ == u.with_ip(jump::rel_target(u.ip, rel as int))
            } else {
                r == Step::Done(4) && final(cpu)@ == u
            }
        },
        0xB0 <= op <= 0xB7 ==> {
            let s = old(cpu)@;
            let u = s.with_ip(crate::state::wrap_add(s.ip, 1));
            r == Step::Done(4) && final(cpu)@ == crate::cpu::with_byte_op(
                u,
                operand::Byte::Reg(byte_reg_of(op % 8)),
                s.byte_at(Segment::CS, s.ip),
            )
        },
        0xB8 <= op <= 0xBF ==> {
            let s = old(cpu)@;
            let u = s.with_ip(crate::state::wrap_add(s.ip, 2));
            r == Step::Done(4) && final(cpu)@ == crate::cpu::with_word_op(
                u,
                operand::Word::Reg(word_reg_of(op % 8)),
                s.word_at(Segment::CS, s.ip),
            )
        },
        op == 0xF4 ==> r == Step::Halt(2) && final(cpu)@ == old(cpu)@,
        op == 0xEA ==> {
            let s = old(cpu)@;
            let off = s.word_at(Segment::CS, s.ip);
            let seg = s.word_at(Segment::CS, crate::state::wrap_add(s.ip, 2));
            r == Step::Done(15) && final(cpu)@ == s.with_ip(off).with_seg(Segment::CS, seg)
        },
        op == 0xF8 ==> r == Step::Done(2) && final(cpu)@ == old(cpu)@.with_flags(
            Flags { carry: false, ..old(cpu).flags },
        ),
        op == 0xF9 ==> r == Step::Done(2) && final(cpu)@ == old(cpu)@.with_flags(
            Flags { carry: true, ..old(cpu).flags },
        ),
        op == 0xFA ==> r == Step::Done(2) && final(cpu)@ == old(cpu)@.with_flags(
            Flags { interrupt: false, ..old(cpu).flags },
        ),
        op == 0xFB ==> r == Step::Done(2) && final(cpu)@ == old(cpu)@.with_flags(
            Flags { interrupt: true, ..old(cpu).flags },
        ),
        op == 0xFC ==> r == Step::Done(2) && final(cpu)@ == old(cpu)@.with_flags(
            Flags { direction: false, ..old(cpu).flags },
        ),
        op == 0xFD ==> r == Step::Done(2) && final(cpu)@ == old(cpu)@.with_flags(
            Flags { direction: true, ..old(cpu).flags },
        ),
        op == 0xCD ==> {
            let s = old(cpu)@;
            r == Step::Done(72) && final(cpu)@ == jump::interrupt_entry(
                s.with_ip(crate::state::wrap_add(s.ip, 1)),
                s.byte_at(Segment::CS, s.ip),
            )
        },
        simple_effect(old(cpu)@, op) is Some ==> (r, final(cpu)@) == simple_effect(old(cpu)@, op)->Some_0,
{
    proof {
        lemma_simple_ops(old(cpu)@, op);
    }
    if op < 0x80 {
        execute_low(cpu, op, seg_override)
    } else {
        execute_high(cpu, op, seg_override)
    }
}

/// Opcodes below 0x80.
fn execute_low(cpu: &mut CPU, op: u8, seg_override: Option<Segment>) -> (r: Step)
    requires
        old(cpu).wf(),
        op < 0x80,
    ensures
        final(cpu).wf(),
        unassigned(op) ==> r == Step::Unsupported(op) && final(cpu)@ == old(cpu)@,
        op < 0x40 && op % 8 == 4 ==> r == Step::Done(4) && final(cpu)@ == alu_al_imm(
            old(cpu)@,
            alu_op_of(op / 8),
        ),
        0x50 <= op <= 0x57 ==> r == Step::Done(15) && final(cpu)@ == old(cpu)@.push(
            old(cpu)@.regs.word(word_reg_of(op % 8)),
        ),
        0x58 <= op <= 0x5F ==> r == Step::Done(12) && final(cpu)@ == crate::cpu::with_word_op(
            MachineState { segment: old(cpu)@.segment, ..old(cpu)@.pop() },
            operand::Word::Reg(word_reg_of(op % 8)),
            old(cpu)@.top(),
        ),
        0x70 <= op <= 0x7F ==> {
            let s = old(cpu)@;
            let rel = s.byte_at(Segment::CS, s.ip) as i8;
            let u = s.with_ip(crate::state::wrap_add(s.ip, 1));
            if condition_holds(s.flags, op) {
                r == Step::Done(16) && final(cpu)@ == u.with_ip(jump::rel_target(u.ip, rel as int))
            } else {
                r == Step::Done(4) && final(cpu)@ == u
            }
        },
        simple_effect(old(cpu)@, op) is Some ==> (r, final(cpu)@) == simple_effect(old(cpu)@, op)->Some_0,
{
    proof {
        lemma_simple_ops(old(cpu)@, op);
    }
    if op < 0x40 && op % 8 < 6 {
        return run_alu_form(cpu, op, seg_override);
    }
    if op < 0x20 && op % 8 == 6 {
        return Step::Done(flag_ops::push(cpu, operand::Word::Seg(seg_reg(op / 8))));
    }
    if op < 0x20 && op % 8 == 7 && op != 0x0F {
        return Step::Done(flag_ops::pop(cpu, operand::Word::Seg(seg_reg(op / 8))));
    }
    if 0x40 <= op && op <= 0x4F {
        return Step::Done(arith::inc_dec_word(cpu, operand::Word::Reg(word_reg(op % 8)), op < 0x48));
    }
    if 0x50 <= op && op <= 0x57 {
        return exec_push_reg(cpu, op);
    }
    if 0x58 <= op && op <= 0x5F {
        return exec_pop_reg(cpu, op);
    }
    if 0x70 <= op && op <= 0x7F {
        return exec_jcc(cpu, op);
    }
    execute_misc(cpu, op, seg_override)
}

/// Opcodes from 0x80 up.
#[verifier::rlimit(60)]
fn execute_high(cpu: &mut CPU, op: u8, seg_override: Option<Segment>) -> (r: Step)
    requires
        old(cpu).wf(),
        op >= 0x80,
    ensures
        final(cpu).wf(),
        unassigned(op) ==> r == Step::Unsupported(op) && final(cpu)@ == old(cpu)@,
        0xB0 <= op <= 0xB7 ==> {
            let s = old(cpu)@;
            let u = s.with_ip(crate::state::wrap_add(s.ip, 1));
            r == Step::Done(4) && final(cpu)@ == crate::cpu::with_byte_op(
                u,
                operand::Byte::Reg(byte_reg_of(op % 8)),
                s.byte_at(Segment::CS, s.ip),
            )
        },
        0xB8 <= op <= 0xBF ==> {
            let s = old(cpu)@;
            let u = s.with_ip(crate::state::wrap_add(s.ip, 2));
            r == Step::Done(4) && final(cpu)@ == crate::cpu::with_word_op(
                u,
                operand::Word::Reg(word_reg_of(op % 8)),
                s.word_at(Segment::CS, s.ip),
            )
        },
        op == 0xF4 ==> r == Step::Halt(2) && final(cpu)@ == old(cpu)@,
        op == 0xEA ==> {
            let s = old(cpu)@;
            let off = s.word_at(Segment::CS, s.ip);
            let seg = s.word_at(Segment::CS, crate::state::wrap_add(s.ip, 2));
            r == Step::Done(15) && final(cpu)@ == s.with_ip(off).with_seg(Segment::CS, seg)
        },
        op == 0xF8 ==> r == Step::Done(2) && final(cpu)@ == old(cpu)@.with_flags(
            Flags { carry: false, ..old(cpu).flags },
        ),
        op == 0xF9 ==> r == Step::Done(2) && final(cpu)@ == old(cpu)@.with_flags(
            Flags { carry: true, ..old(cpu).flags },
        ),
        op == 0xFA ==> r == Step::Done(2) && final(cpu)@ == old(cpu)@.with_flags(
            Flags { interrupt: false, ..old(cpu).flags },
        ),
        op == 0xFB ==> r == Step::Done(2) && final(cpu)@ == old(cpu)@.with_flags(
            Flags { interrupt: true, ..old(cpu).flags },
        ),
        op == 0xFC ==> r == Step::Done(2) && final(cpu)@ == old(cpu)@.with_flags(
            Flags { direction: false, ..old(cpu).flags },
        ),
        op == 0xFD ==> r == Step::Done(2) && final(cpu)@ == old(cpu)@.with_flags(
            Flags { direction: true, ..old(cpu).flags },
        ),
        op == 0xCD ==> {
            let s = old(cpu)@;
            r == Step::Done(72) && final(cpu)@ == jump::interrupt_entry(
                s.with_ip(crate::state::wrap_add(s.ip, 1)),
                s.byte_at(Segment::CS, s.ip),
            )
        },
        simple_effect(old(cpu)@, op) is Some ==> (r, final(cpu)@) == simple_effect(old(cpu)@, op)->Some_0,
{
    proof {
        lemma_simple_ops(old(cpu)@, op);
    }
    if (0x80 <= op && op <= 0x83) || (0x88 <= op && op <= 0x8E) || (0x91 <= op && op <= 0x97) || (0xD0
        <= op && op <= 0xD3) || op == 0xF6 || op == 0xF7 || op == 0xFE || op == 0xFF {
        return execute_groups(cpu, op, seg_override);
    }
    if 0xB0 <= op && op <= 0xB7 {
        return exec_mov_imm8(cpu, op);
    }
    if 0xB8 <= op && op <= 0xBF {
        return exec_mov_imm16(cpu, op);
    }
    execute_misc(cpu, op, seg_override)
}

/// The group opcodes and the MOV and XCHG forms.
fn execute_groups(cpu: &mut CPU, op: u8, seg_override: Option<Segment>) -> (r: Step)
    requires
        old(cpu).wf(),
    ensures
        final(cpu).wf(),
{
    if 0x80 <= op && op <= 0x83 {
        return run_group1(cpu, op, seg_override);
    }
    if 0x88 <= op && op <= 0x8E {
        return run_mov_form(cpu, op, seg_override);
    }
    if 0x91 <= op && op <= 0x97 {
        return Step::Done(
            transfer::xchg_word(cpu, operand::Word::Reg(register::Word::AX), operand::Word::Reg(word_reg(op % 8))),
        );
    }
    if 0xD0 <= op && op <= 0xD3 {
        return run_group2(cpu, op, seg_override);
    }
    if op == 0xF6 || op == 0xF7 {
        return run_group3(cpu, op, seg_override);
    }
    if op == 0xFE || op == 0xFF {
        return run_group45(cpu, op, seg_override);
    }
    Step::Unsupported(op)
}

/// The opcodes outside the regular ranges of `execute`.
#[verifier::rlimit(80)]
fn execute_misc(cpu: &mut CPU, op: u8, seg_override: Option<Segment>) -> (r: Step)
    requires
        old(cpu).wf(),
    ensures
        final(cpu).wf(),
        unassigned(op) ==> r == Step::Unsupported(op) && final(cpu)@ == old(cpu)@,
        op == 0xF4 ==> r == Step::Halt(2) && final(cpu)@ == old(cpu)@,
        op == 0xEA ==> {
            let s = old(cpu)@;
            let off = s.word_at(Segment::CS, s.ip);
            let seg = s.word_at(Segment::CS, crate::state::wrap_add(s.ip, 2));
            r == Step::Done(15) && final(cpu)@ == s.with_ip(off).with_seg(Segment::CS, seg)
        },
        op == 0xF8 ==> r == Step::Done(2) && final(cpu)@ == old(cpu)@.with_flags(
            Flags { carry: false, ..old(cpu).flags },
        ),
        op == 0xF9 ==> r == Step::Done(2) && final(cpu)@ == old(cpu)@.with_flags(
            Flags { carry: true, ..old(cpu).flags },
        ),
        op == 0xFA ==> r == Step::Done(2) && final(cpu)@ == old(cpu)@.with_flags(
            Flags { interrupt: false, ..old(cpu).flags },
        ),
        op == 0xFB ==> r == Step::Done(2) && final(cpu)@ == old(cpu)@.with_flags(
            Flags { interrupt: true, ..old(cpu).flags },
        ),
        op == 0xFC ==> r == Step::Done(2) && final(cpu)@ == old(cpu)@.with_flags(
            Flags { direction: false, ..old(cpu).flags },
        ),
        op == 0xFD ==> r == Step::Done(2) && final(cpu)@ == old(cpu)@.with_flags(
            Flags { direction: true, ..old(cpu).flags },
        ),
        op == 0xCD ==> {
            let s = old(cpu)@;
            r == Step::Done(72) && final(cpu)@ == jump::interrupt_entry(
                s.with_ip(crate::state::wrap_add(s.ip, 1)),
                s.byte_at(Segment::CS, s.ip),
            )
        },
        simple_effect(old(cpu)@, op) is Some ==> (r, final(cpu)@) == simple_effect(old(cpu)@, op)->Some_0,
{
    proof {
        lemma_simple_ops(old(cpu)@, op);
    }
    if is_unassigned(op) {
        return Step::Unsupported(op);
    }
    match op {
        0xF4 => Step::Halt(2),
        0xEA => Step::Done(far_jump_imm(cpu)),
        0xCD => Step::Done(int_imm(cpu)),
        0xF8 => Step::Done(flag_ops::clc(cpu)),
        0xF9 => Step::Done(flag_ops::stc(cpu)),
        0xFA => Step::Done(flag_ops::cli(cpu)),
        0xFB => Step::Done(flag_ops::sti(cpu)),
        0xFC => Step::Done(flag_ops::cld(cpu)),
        0xFD => Step::Done(flag_ops::set_direction(cpu)),
        _ => execute_rest(cpu, op, seg_override),
    }
}

/// JMP FAR to the segment and offset that follow the opcode.
fn far_jump_imm(cpu: &mut CPU) -> (r: usize)
    requires
        old(cpu).wf(),
    ensures
        final(cpu).wf(),
        ({
            let s = old(cpu)@;
            let off = s.word_at(Segment::CS, s.ip);
            let seg = s.word_at(Segment::CS, crate::state::wrap_add(s.ip, 2));
            r == 15 && final(cpu)@ == s.with_ip(off).with_seg(Segment::CS, seg)
        }),
{
    let off = fetch_word(cpu);
    let seg = fetch_word(cpu);
    jump::jmp_addr(cpu, operand::Word::Imm(seg), operand::Word::Imm(off))
}

/// INT with the vector number that follows the opcode.
fn int_imm(cpu: &mut CPU) -> (r: usize)
    requires
        old(cpu).wf(),
    ensures
        final(cpu).wf(),
        ({
            let s = old(cpu)@;
            r == 72 && final(cpu)@ == jump::interrupt_entry(
                s.with_ip(crate::state::wrap_add(s.ip, 1)),
                s.byte_at(Segment::CS, s.ip),
            )
        }),
{
    let n = fetch_byte(cpu);
    jump::int_n(cpu, n)
}

fn is_unassigned(op: u8) -> (r: bool)
    ensures
        r == unassigned(op),
{
    op == 0x0F || (0x60 <= op && op <= 0x6F) || op == 0xC0 || op == 0xC1 || op == 0xC8 || op == 0xC9
        || op == 0xD6 || op == 0xF1
}

/// The rest of the primary table.
fn execute_rest(cpu: &mut CPU, op: u8, seg_override: Option<Segment>) -> (r: Step)
    requires
        old(cpu).wf(),
    ensures
        final(cpu).wf(),
        simple_effect(old(cpu)@, op) is Some ==> (r, final(cpu)@) == simple_effect(old(cpu)@, op)->Some_0,
{
    proof {
        lemma_simple_ops(old(cpu)@, op);
        reveal(simple_effect);
    }
    if let Some(s) = string_of(op) {
        return Step::Done(string::run_string(cpu, s));
    }
    if op == 0xC2 || op == 0xCA || (0xE4 <= op && op <= 0xE9) || op == 0xEB {
        if op == 0xC2 || op == 0xCA {
            return return_imm(cpu, op);
        }
        return execute_near(cpu, op);
    }
    match op {
        0x9A => {
            let off = fetch_word(cpu);
            let seg = fetch_word(cpu);
            Step::Done(jump::call_addr(cpu, operand::Word::Imm(seg), operand::Word::Imm(off)))
        },
        0x90 | 0x9B => Step::Done(3),
        0x27 => Step::Done(arith::decimal_adjust_al(cpu, true)),
        0x2F => Step::Done(arith::decimal_adjust_al(cpu, false)),
        0x37 => Step::Done(arith::ascii_adjust(cpu, true)),
        0x3F => Step::Done(arith::ascii_adjust(cpu, false)),
        0xD4 => {
            let base = fetch_byte(cpu);
            Step::Done(arith::aam(cpu, base))
        },
        0xD5 => {
            let base = fetch_byte(cpu);
            Step::Done(arith::aad(cpu, base))
        },
        0x98 => {
            let al = cpu.regs.get_byte(&register::Byte::AL);
            cpu.regs.ax = if al >= 128 { 0xFF00 + al as u16 } else { al as u16 };
            Step::Done(2)
        },
        0x99 => {
            cpu.regs.dx = if cpu.regs.ax >= 0x8000 { 0xFFFF } else { 0 };
            Step::Done(5)
        },
        0x9C => Step::Done(flag_ops::pushf(cpu)),
        0x9D => Step::Done(flag_ops::popf(cpu)),
        0x9E => Step::Done(flag_ops::sahf(cpu)),
        0x9F => Step::Done(flag_ops::lahf(cpu)),
        0xC3 => Step::Done(jump::ret(cpu, None)),
        0xC4 | 0xC5 => {
            let modrm = fetch_byte(cpu);
            let reg = (modrm / 8) % 8;
            let rm = decode_rm(cpu, modrm, seg_override);
            if matches!(rm, Rm::Mem { .. }) {
                let dst = operand::Word::Reg(word_reg(reg));
                if op == 0xC4 {
                    Step::Done(transfer::les_word(cpu, dst, rm_word(rm)))
                } else {
                    Step::Done(transfer::lds_word(cpu, dst, rm_word(rm)))
                }
            } else {
                Step::Unsupported(op)
            }
        },
        0xC6 | 0xC7 => {
            let modrm = fetch_byte(cpu);
            let rm = decode_rm(cpu, modrm, seg_override);
            if op == 0xC6 {
                let imm = fetch_byte(cpu);
                Step::Done(transfer::mov_byte(cpu, rm_byte(rm), operand::Byte::Imm(imm)))
            } else {
                let imm = fetch_word(cpu);
                Step::Done(transfer::mov_word(cpu, rm_word(rm), operand::Word::Imm(imm)))
            }
        },
        0xCB => Step::Done(jump::retf(cpu, None)),
        0xCC => Step::Done(jump::int_n(cpu, 3)),
        0xCD => {
            let n = fetch_byte(cpu);
            Step::Done(jump::int_n(cpu, n))
        },
        0xCE => Step::Done(jump::into(cpu)),
        0xCF => Step::Done(jump::iret(cpu)),
        0xD7 => Step::Done(transfer::xlat(cpu)),
        0xE0 | 0xE1 | 0xE2 => {
            let rel = fetch_byte(cpu) as i8;
            let cond = if op == 0xE0 {
                !cpu.flags.zero
            } else if op == 0xE1 {
                cpu.flags.zero
            } else {
                true
            };
            Step::Done(jump::loop_relative(cpu, rel, cond))
        },
        0xE3 => {
            let rel = fetch_byte(cpu) as i8;
            let taken = cpu.regs.cx == 0;
            Step::Done(jump::jmp_relative(cpu, rel, taken) + 2)
        },
        0xEA => {
            let off = fetch_word(cpu);
            let seg = fetch_word(cpu);
            Step::Done(jump::jmp_addr(cpu, operand::Word::Imm(seg), operand::Word::Imm(off)))
        },
        0xEC => {
            let (c, a) = transfer::in_al_word(cpu);
            Step::Port(c, a)
        },
        0xED => {
            let (c, a) = transfer::in_ax_word(cpu);
            Step::Port(c, a)
        },
        0xEE => {
            let (c, a) = transfer::out_al_word(cpu);
            Step::Port(c, a)
        },
        0xEF => {
            let (c, a) = transfer::out_ax_word(cpu);
            Step::Port(c, a)
        },
        0xF4 => Step::Halt(2),
        0xD8 | 0xD9 | 0xDA | 0xDB | 0xDC | 0xDD | 0xDE | 0xDF => {
            let modrm = fetch_byte(cpu);
            decode_rm(cpu, modrm, seg_override);
            Step::Done(2)
        },
        0xF5 => Step::Done(flag_ops::cmc(cpu)),
        0xF8 => Step::Done(flag_ops::clc(cpu)),
        0xF9 => Step::Done(flag_ops::stc(cpu)),
        0xFA => Step::Done(flag_ops::cli(cpu)),
        0xFB => Step::Done(flag_ops::sti(cpu)),
        0xFC => Step::Done(flag_ops::cld(cpu)),
        0xFD => Step::Done(flag_ops::set_direction(cpu)),
        _ => Step::Unsupported(op),
    }
}

/// RET and RETF with an SP delta.
fn return_imm(cpu: &mut CPU, op: u8) -> (r: Step)
    requires
        old(cpu).wf(),
        op == 0xC2 || op == 0xCA,
    ensures
        final(cpu).wf(),
        simple_effect(old(cpu)@, op) is Some,
        (r, final(cpu)@) == simple_effect(old(cpu)@, op)->Some_0,
{
    let n = fetch_word(cpu);
    let c = if op == 0xC2 {
        jump::ret(cpu, Some(n))
    } else {
        jump::retf(cpu, Some(n))
    };
    proof {
        reveal(simple_effect);
    }
    Step::Done(c)
}

/// IN and OUT with an immediate port, and the relative CALL, JMP and short
/// JMP.
fn execute_near(cpu: &mut CPU, op: u8) -> (r: Step)
    requires
        old(cpu).wf(),
        (0xE4 <= op <= 0xE9) || op == 0xEB,
    ensures
        final(cpu).wf(),
        simple_effect(old(cpu)@, op) is Some,
        (r, final(cpu)@) == simple_effect(old(cpu)@, op)->Some_0,
{
    match op {
        0xE4 => {
            proof {
                reveal(simple_effect);
            }
            let port = fetch_byte(cpu);
            let (c, a) = transfer::in_al_byte(cpu, operand::Byte::Imm(port));
            Step::Port(c, a)
        },
        0xE5 => {
            proof {
                reveal(simple_effect);
            }
            let port = fetch_byte(cpu);
            let (c, a) = transfer::in_ax_byte(cpu, operand::Byte::Imm(port));
            Step::Port(c, a)
        },
        0xE6 => {
            proof {
                reveal(simple_effect);
            }
            let port = fetch_byte(cpu);
            let (c, a) = transfer::out_al_byte(cpu, operand::Byte::Imm(port));
            Step::Port(c, a)
        },
        0xE7 => {
            proof {
                reveal(simple_effect);
            }
            let port = fetch_byte(cpu);
            let (c, a) = transfer::out_ax_byte(cpu, operand::Byte::Imm(port));
            Step::Port(c, a)
        },
        0xE8 => {
            proof {
                reveal(simple_effect);
            }
            let rel = fetch_word(cpu);
            Step::Done(jump::call_relative_word(cpu, operand::Word::Imm(rel)))
        },
        0xE9 => {
            proof {
                reveal(simple_effect);
            }
            let rel = fetch_word(cpu) as i16;
            Step::Done(jump::jmp_relative_word(cpu, rel))
        },
        _ => {
            proof {
                reveal(simple_effect);
            }
            let rel = fetch_byte(cpu) as i8;
            Step::Done(jump::jmp_relative(cpu, rel, true) - 1)
        },

    }
}

/// Simulated nanoseconds per clock cycle at 4.77 MHz.
pub const CYCLE_NANOS: u64 = 210;

/// The simulated time that a number of clock cycles takes.
pub fn cycles_to_nanos(cycles: usize) -> (r: u64)
    ensures
        cycles <= 0xFFFF_FFFF ==> r == cycles * 210,
{
    if cycles > 0xFFFF_FFFF {
        u64::MAX
    } else {
        cycles as u64 * CYCLE_NANOS
    }
}

/// One step of the processor: the fetch buffer is refilled from CS:IP and
/// the instruction there runs.
pub fn single_run(cpu: &mut CPU) -> (r: Step)
    requires
        old(cpu).wf(),
    ensures
        final(cpu).wf(),
        final(cpu).current_address == crate::memory::physical(old(cpu).memory.cs, old(cpu).memory.ip),
        ({
            let s = old(cpu)@;
            let b = s.byte_at(Segment::CS, s.ip);
            let t = s.with_ip(crate::state::wrap_add(s.ip, 1));
            &&& unassigned(b) ==> r == Step::Unsupported(b) && final(cpu)@ == t
            &&& b < 0x40 && b % 8 == 4 ==> r == Step::Done(4) && final(cpu)@ == alu_al_imm(t, alu_op_of(b / 8))
            &&& b == 0xF3 && t.byte_at(Segment::CS, t.ip) == 0xA4 ==> {
                let u = t.with_ip(crate::state::wrap_add(t.ip, 1));
                &&& final(cpu)@ == string::rep_step(u, true, StringOp::Movsb, s.ip)
                &&& r == Step::Done(if s.regs.cx == 0 { 2 } else { 20 })
            }
            &&& b == 0xF4 ==> r == Step::Halt(2) && final(cpu)@ == t
            &&& b == 0xEA ==> r == Step::Done(15) && final(cpu)@ == t.with_ip(
                t.word_at(Segment::CS, t.ip),
            ).with_seg(Segment::CS, t.word_at(Segment::CS, crate::state::wrap_add(t.ip, 2)))
            &&& b == 0xCD ==> r == Step::Done(72) && final(cpu)@ == jump::interrupt_entry(
                t.with_ip(crate::state::wrap_add(t.ip, 1)),
                t.byte_at(Segment::CS, t.ip),
            )
        }),
{
    cpu.memory.prepare_next_instruction();
    run_next_instruction(cpu)
}

/// An interrupt request from the board, taken between instructions: the
/// handler of `index` is entered when interrupts are enabled, and the result
/// says whether it was.
pub fn interrupt(cpu: &mut CPU, index: u8) -> (r: bool)
    requires
        old(cpu).wf(),
    ensures
        final(cpu).wf(),
        r == old(cpu).flags.interrupt,
        r ==> final(cpu)@ == jump::interrupt_entry(old(cpu)@, index),
        !r ==> final(cpu)@ == old(cpu)@,
{
    if cpu.flags.interrupt {
        jump::hardware_int(cpu, index);
        true
    } else {
        false
    }
}

/// Whether an opcode is a segment-override prefix, and which segment.
fn override_of(op: u8) -> (r: Option<Segment>)
    ensures
        r is Some <==> (op == 0x26 || op == 0x2E || op == 0x36 || op == 0x3E),
{
    match op {
        0x26 => Some(Segment::ES),
        0x2E => Some(Segment::CS),
        0x36 => Some(Segment::SS),
        0x3E => Some(Segment::DS),
        _ => None,
    }
}

/// Executes the instruction at CS:IP: records its address, reads any
/// segment-override, LOCK and REP prefixes, and runs it. A REP-prefixed
/// string primitive runs one round and, while rounds remain, leaves IP on
/// its first prefix so that the next step comes back to it.
pub fn run_next_instruction(cpu: &mut CPU) -> (r: Step)
    requires
        old(cpu).wf(),
    ensures
        final(cpu).wf(),
        final(cpu).current_address == crate::memory::physical(old(cpu).memory.cs, old(cpu).memory.ip),
        ({
            let s = old(cpu)@;
            let b = s.byte_at(Segment::CS, s.ip);
            let t = s.with_ip(crate::state::wrap_add(s.ip, 1));
            &&& unassigned(b) ==> r == Step::Unsupported(b) && final(cpu)@ == t
            &&& b < 0x40 && b % 8 == 4 ==> r == Step::Done(4) && final(cpu)@ == alu_al_imm(t, alu_op_of(b / 8))
            &&& b == 0xF3 && t.byte_at(Segment::CS, t.ip) == 0xA4 ==> {
                let u = t.with_ip(crate::state::wrap_add(t.ip, 1));
                &&& final(cpu)@ == string::rep_step(u, true, StringOp::Movsb, s.ip)
                &&& r == Step::Done(if s.regs.cx == 0 { 2 } else { 20 })
            }
            &&& b == 0xF4 ==> r == Step::Halt(2) && final(cpu)@ == t
            &&& b == 0xEA ==> r == Step::Done(15) && final(cpu)@ == t.with_ip(
                t.word_at(Segment::CS, t.ip),
            ).with_seg(Segment::CS, t.word_at(Segment::CS, crate::state::wrap_add(t.ip, 2)))
            &&& b == 0xCD ==> r == Step::Done(72) && final(cpu)@ == jump::interrupt_entry(
                t.with_ip(crate::state::wrap_add(t.ip, 1)),
                t.byte_at(Segment::CS, t.ip),
            )
        }),
{
    let address = cpu.memory.get_current_address();
    let prefix_ip = cpu.memory.ip;
    let op = fetch_byte(cpu);
    if override_of(op).is_none() && op != 0xF2 && op != 0xF3 && op != 0xF0 {
        let step = execute(cpu, op, None);
        cpu.current_address = address;
        return step;
    }
    let step = run_prefixed(cpu, op, prefix_ip);
    cpu.current_address = address;
    step
}

/// An instruction whose first byte `op`, already taken from CS:IP (which
/// was `prefix_ip`), is a prefix.
fn run_prefixed(cpu: &mut CPU, op: u8, prefix_ip: u16) -> (r: Step)
    requires
        old(cpu).wf(),
    ensures
        final(cpu).wf(),
        ({
            let t = old(cpu)@;
            op == 0xF3 && t.byte_at(Segment::CS, t.ip) == 0xA4 ==> {
                let u = t.with_ip(crate::state::wrap_add(t.ip, 1));
                &&& final(cpu)@ == string::rep_step(u, true, StringOp::Movsb, prefix_ip)
                &&& r == Step::Done(if t.regs.cx == 0 { 2 } else { 20 })
            }
        }),
{
    let mut op = op;
    let mut seg_override: Option<Segment> = None;
    let mut rep: Option<bool> = None;
    if op == 0xF2 || op == 0xF3 {
        let zero = op == 0xF3;
        let next = fetch_byte(cpu);
        if let Some(prim) = string_of(next) {
            let c = string::rep(cpu, zero, prim, prefix_ip);
            return Step::Done(c);
        }
        rep = Some(zero);
        op = next;
    }
    let mut extra: usize = 0;
    let mut n: u8 = 0;
    while n < 4
        invariant
            cpu.wf(),
            extra <= 2 * n,
            n <= 4,
        decreases 4 - n,
    {
        n = n + 1;
        if let Some(g) = override_of(op) {
            seg_override = Some(g);
            op = fetch_byte(cpu);
            extra = extra + 2;
        } else if op == 0xF2 || op == 0xF3 {
            rep = Some(op == 0xF3);
            op = fetch_byte(cpu);
        } else if op == 0xF0 {
            op = fetch_byte(cpu);
        } else {
            break;
        }
    }
    let step = match rep {
        Some(zero) => match string_of(op) {
            Some(s) => Step::Done(string::rep(cpu, zero, s, prefix_ip)),
            None => execute(cpu, op, seg_override),
        },
        None => execute(cpu, op, seg_override),
    };
    match step {
        Step::Done(c) => Step::Done(c.saturating_add(extra)),
        _ => step,
    }
}

} // verus!
