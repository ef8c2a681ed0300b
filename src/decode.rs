//! Fetching from the code stream at CS:IP and decoding ModR/M operands.
use vstd::prelude::*;
use crate::cpu::CPU;
use crate::memory::{calculate_addr, Segment};
use crate::operand;
use crate::register::{self, Registers};
use crate::state::{wrap_add, MachineState};

verus! {

/// What the r/m field of a ModR/M byte names.
#[derive(Clone, Copy, Debug, PartialEq, Eq, Structural)]
pub enum Rm {
    /// A register, by its three-bit number.
    Reg(u8),
    /// Memory at an offset of the latched segment, with the
    /// effective-address penalty.
    Mem { addr: u16, cycles: u8 },
}

/// The base and index registers that an r/m value adds (before any
/// displacement): BX+SI, BX+DI, BP+SI, BP+DI, SI, DI, BP, BX.
pub open spec fn base_offset(regs: Registers, rm: u8) -> int {
    if rm == 0 {
        regs.bx + regs.si
    } else if rm == 1 {
        regs.bx + regs.di
    } else if rm == 2 {
        regs.bp + regs.si
    } else if rm == 3 {
        regs.bp + regs.di
    } else if rm == 4 {
        regs.si as int
    } else if rm == 5 {
        regs.di as int
    } else if rm == 6 {
        regs.bp as int
    } else {
        regs.bx as int
    }
}

/// Whether a memory form is based on BP, and so defaults to SS.
pub open spec fn uses_bp(md: u8, rm: u8) -> bool {
    rm == 2 || rm == 3 || (rm == 6 && md != 0)
}

/// Whether a memory form is a bare 16-bit displacement.
pub open spec fn direct(md: u8, rm: u8) -> bool {
    md == 0 && rm == 6
}

/// The effective-address clock penalty of a memory form, before any
/// segment override: 6 for a bare displacement; 5 for one register;
/// 7 for BP+DI or BX+SI and 8 for BP+SI or BX+DI; with a displacement,
/// 9, 11 and 12.
pub open spec fn ea_cycles(md: u8, rm: u8) -> u8 {
    if direct(md, rm) {
        6
    } else if md == 0 {
        if rm == 0 || rm == 3 {
            7
        } else if rm == 1 || rm == 2 {
            8
        } else {
            5
        }
    } else if rm == 0 || rm == 3 {
        11
    } else if rm == 1 || rm == 2 {
        12
    } else {
        9
    }
}

/// The displacement that follows a ModR/M byte at CS:IP.
pub open spec fn displacement(s: MachineState, md: u8, rm: u8) -> int {
    if md == 1 {
        let b = s.byte_at(Segment::CS, s.ip);
        if b >= 128 {
            b - 256
        } else {
            b as int
        }
    } else if md == 2 || direct(md, rm) {
        s.word_at(Segment::CS, s.ip) as int
    } else {
        0
    }
}

/// How many displacement bytes follow.
pub open spec fn displacement_len(md: u8, rm: u8) -> u16 {
    if md == 1 {
        1
    } else if md == 2 || direct(md, rm) {
        2
    } else {
        0
    }
}

/// The effective address of a memory form, wrapped to 16 bits.
pub open spec fn ea_offset(s: MachineState, md: u8, rm: u8) -> u16 {
    if direct(md, rm) {
        displacement(s, md, rm) as u16
    } else {
        ((base_offset(s.regs, rm) + displacement(s, md, rm) + 0x2_0000) % 0x1_0000) as u16
    }
}

/// The byte register a three-bit number names: AL, CL, DL, BL, AH, CH, DH,
/// BH.
pub open spec fn byte_reg_of(i: u8) -> register::Byte {
    if i == 0 {
        register::Byte::AL
    } else if i == 1 {
        register::Byte::CL
    } else if i == 2 {
        register::Byte::DL
    } else if i == 3 {
        register::Byte::BL
    } else if i == 4 {
        register::Byte::AH
    } else if i == 5 {
        register::Byte::CH
    } else if i == 6 {
        register::Byte::DH
    } else {
        register::Byte::BH
    }
}

/// The word register a three-bit number names: AX, CX, DX, BX, SP, BP, SI,
/// DI.
pub open spec fn word_reg_of(i: u8) -> register::Word {
    if i == 0 {
        register::Word::AX
    } else if i == 1 {
        register::Word::CX
    } else if i == 2 {
        register::Word::DX
    } else if i == 3 {
        register::Word::BX
    } else if i == 4 {
        register::Word::SP
    } else if i == 5 {
        register::Word::BP
    } else if i == 6 {
        register::Word::SI
    } else {
        register::Word::DI
    }
}

/// The segment register a two-bit number names: ES, CS, SS, DS.
pub open spec fn seg_reg_of(i: u8) -> Segment {
    if i % 4 == 0 {
        Segment::ES
    } else if i % 4 == 1 {
        Segment::CS
    } else if i % 4 == 2 {
        Segment::SS
    } else {
        Segment::DS
    }
}

pub fn byte_reg(i: u8) -> (r: register::Byte)
    ensures
        r == byte_reg_of(i),
{
    if i == 0 {
        register::Byte::AL
    } else if i == 1 {
        register::Byte::CL
    } else if i == 2 {
        register::Byte::DL
    } else if i == 3 {
        register::Byte::BL
    } else if i == 4 {
        register::Byte::AH
    } else if i == 5 {
        register::Byte::CH
    } else if i == 6 {
        register::Byte::DH
    } else {
        register::Byte::BH
    }
}

pub fn word_reg(i: u8) -> (r: register::Word)
    ensures
        r == word_reg_of(i),
{
    if i == 0 {
        register::Word::AX
    } else if i == 1 {
        register::Word::CX
    } else if i == 2 {
        register::Word::DX
    } else if i == 3 {
        register::Word::BX
    } else if i == 4 {
        register::Word::SP
    } else if i == 5 {
        register::Word::BP
    } else if i == 6 {
        register::Word::SI
    } else {
        register::Word::DI
    }
}

pub fn seg_reg(i: u8) -> (r: Segment)
    ensures
        r == seg_reg_of(i),
{
    if i % 4 == 0 {
        Segment::ES
    } else if i % 4 == 1 {
        Segment::CS
    } else if i % 4 == 2 {
        Segment::SS
    } else {
        Segment::DS
    }
}

/// The byte operand an r/m names.
pub open spec fn rm_byte_of(rm: Rm) -> operand::Byte {
    match rm {
        Rm::Reg(i) => operand::Byte::Reg(byte_reg_of(i)),
        Rm::Mem { addr, cycles } => operand::Byte::Mem { addr, cycles },
    }
}

/// The word operand an r/m names.
pub open spec fn rm_word_of(rm: Rm) -> operand::Word {
    match rm {
        Rm::Reg(i) => operand::Word::Reg(word_reg_of(i)),
        Rm::Mem { addr, cycles } => operand::Word::Mem { addr, cycles },
    }
}

pub fn rm_byte(rm: Rm) -> (r: operand::Byte)
    ensures
        r == rm_byte_of(rm),
        r.writable(),
{
    match rm {
        Rm::Reg(i) => operand::Byte::Reg(byte_reg(i)),
        Rm::Mem { addr, cycles } => operand::Byte::Mem { addr, cycles },
    }
}

pub fn rm_word(rm: Rm) -> (r: operand::Word)
    ensures
        r == rm_word_of(rm),
        r.writable(),
{
    match rm {
        Rm::Reg(i) => operand::Word::Reg(word_reg(i)),
        Rm::Mem { addr, cycles } => operand::Word::Mem { addr, cycles },
    }
}

/// Takes the byte at CS:IP and moves IP past it.
pub fn fetch_byte(cpu: &mut CPU) -> (r: u8)
    requires
        old(cpu).wf(),
    ensures
        final(cpu).wf(),
        r == old(cpu)@.byte_at(Segment::CS, old(cpu)@.ip),
        final(cpu)@ == old(cpu)@.with_ip(wrap_add(old(cpu)@.ip, 1)),
{
    let b = cpu.memory.ram[calculate_addr(cpu.memory.cs, cpu.memory.ip)];
    cpu.memory.ip = cpu.memory.ip.wrapping_add(1);
    b
}

/// Takes the little-endian word at CS:IP and moves IP past it.
pub fn fetch_word(cpu: &mut CPU) -> (r: u16)
    requires
        old(cpu).wf(),
    ensures
        final(cpu).wf(),
        r == old(cpu)@.word_at(Segment::CS, old(cpu)@.ip),
        final(cpu)@ == old(cpu)@.with_ip(wrap_add(old(cpu)@.ip, 2)),
{
    let low = fetch_byte(cpu);
    let high = fetch_byte(cpu);
    low as u16 + 256 * high as u16
}

/// Decodes the r/m half of a ModR/M byte, taking any displacement from the
/// code stream, and latches the segment that a memory operand goes
/// through: the override if given, else SS for BP-based forms and DS for
/// the rest. A segment override adds two cycles.
pub fn decode_rm(cpu: &mut CPU, modrm: u8, seg_override: Option<Segment>) -> (r: Rm)
    requires
        old(cpu).wf(),
    ensures
        final(cpu).wf(),
        ({
            let s = old(cpu)@;
            let md = modrm / 64;
            let rm = modrm % 8;
            if md == 3 {
                r == Rm::Reg(rm) && final(cpu)@ == s
            } else {
                let seg = match seg_override {
                    Some(g) => g,
                    None => if uses_bp(md, rm) { Segment::SS } else { Segment::DS },
                };
                let penalty = ea_cycles(md, rm) + if seg_override is Some { 2int } else { 0 };
                &&& r == (Rm::Mem { addr: ea_offset(s, md, rm), cycles: penalty as u8 })
                &&& final(cpu)@ == s.with_ip(wrap_add(s.ip, displacement_len(md, rm))).with_segment(seg)
            }
        }),
{
    let md = modrm / 64;
    let rm = modrm % 8;
    if md == 3 {
        return Rm::Reg(rm);
    }
    let disp = read_displacement(cpu, md, rm);
    let base = base_value(&cpu.regs, md, rm);
    let addr = ((base + disp + 0x2_0000) % 0x1_0000) as u16;
    let ea = ea_penalty(md, rm);
    let seg = match seg_override {
        Some(g) => g,
        None => if rm == 2 || rm == 3 || (rm == 6 && md != 0) {
            Segment::SS
        } else {
            Segment::DS
        },
    };
    cpu.memory.current_segment = seg;
    let cycles = if seg_override.is_some() {
        ea + 2
    } else {
        ea
    };
    proof {
        if md == 0 && rm == 6 {
            assert((disp + 0x2_0000) % 0x1_0000 == disp);
        }
    }
    Rm::Mem { addr, cycles }
}

fn read_displacement(cpu: &mut CPU, md: u8, rm: u8) -> (d: i32)
    requires
        old(cpu).wf(),
        md < 3,
    ensures
        final(cpu).wf(),
        d == displacement(old(cpu)@, md, rm),
        final(cpu)@ == old(cpu)@.with_ip(wrap_add(old(cpu)@.ip, displacement_len(md, rm))),
{
    if md == 1 {
        let b = fetch_byte(cpu);
        if b >= 128 {
            b as i32 - 256
        } else {
            b as i32
        }
    } else if md == 2 || (md == 0 && rm == 6) {
        fetch_word(cpu) as i32
    } else {
        proof {
            assert(wrap_add(old(cpu)@.ip, 0) == old(cpu)@.ip);
            assert(old(cpu)@.with_ip(old(cpu)@.ip) == old(cpu)@);
        }
        0
    }
}

fn base_value(regs: &Registers, md: u8, rm: u8) -> (b: i32)
    ensures
        b == (if direct(md, rm) { 0 } else { base_offset(*regs, rm) }),
{
    if md == 0 && rm == 6 {
        0
    } else if rm == 0 {
        regs.bx as i32 + regs.si as i32
    } else if rm == 1 {
        regs.bx as i32 + regs.di as i32
    } else if rm == 2 {
        regs.bp as i32 + regs.si as i32
    } else if rm == 3 {
        regs.bp as i32 + regs.di as i32
    } else if rm == 4 {
        regs.si as i32
    } else if rm == 5 {
        regs.di as i32
    } else if rm == 6 {
        regs.bp as i32
    } else {
        regs.bx as i32
    }
}

fn ea_penalty(md: u8, rm: u8) -> (r: u8)
    ensures
        r == ea_cycles(md, rm),
        r <= 12,
{
    if md == 0 && rm == 6 {
        6
    } else if md == 0 {
        if rm == 0 || rm == 3 {
            7
        } else if rm == 1 || rm == 2 {
            8
        } else {
            5
        }
    } else if rm == 0 || rm == 3 {
        11
    } else if rm == 1 || rm == 2 {
        12
    } else {
        9
    }
}

} // verus!
