//! String primitives and the REP prefix that repeats them.
use vstd::prelude::*;
use crate::cpu::CPU;
use crate::flags::Flags;
use crate::memory::{physical, Segment};
use crate::register;
use crate::state::{wrap_add, wrap_sub, MachineState};
use vstd::arithmetic::div_mod::{lemma_add_mod_noop_right, lemma_mod_add_multiples_vanish};

verus! {

/// The string primitives.
#[derive(Clone, Copy, Debug, PartialEq, Eq, Structural)]
pub enum StringOp {
    Movsb,
    Movsw,
    Cmpsb,
    Cmpsw,
    Lodsb,
    Lodsw,
    Stosb,
    Stosw,
    Scasb,
    Scasw,
}

/// An index register after one element: up when the direction flag is
/// clear, down when it is set.
pub open spec fn stepped(v: u16, amount: u16, down: bool) -> u16 {
    if down {
        wrap_sub(v, amount)
    } else {
        wrap_add(v, amount)
    }
}

/// An index register after `n` elements of `amount` bytes.
pub open spec fn stepped_by(v: u16, amount: u16, n: nat, down: bool) -> u16 {
    if down {
        ((v - amount * n) % 0x1_0000) as u16
    } else {
        ((v + amount * n) % 0x1_0000) as u16
    }
}

/// Whether a primitive compares, and so ends a REPZ/REPNZ on a mismatch.
pub open spec fn compares(op: StringOp) -> bool {
    op == StringOp::Cmpsb || op == StringOp::Cmpsw || op == StringOp::Scasb || op
        == StringOp::Scasw
}

pub open spec fn step_si(s: MachineState, amount: u16) -> MachineState {
    s.with_reg(register::Word::SI, stepped(s.regs.si, amount, s.flags.direction))
}

pub open spec fn step_di(s: MachineState, amount: u16) -> MachineState {
    s.with_reg(register::Word::DI, stepped(s.regs.di, amount, s.flags.direction))
}

/// The state after one string primitive.
#[verifier::opaque]
pub open spec fn string_step(s: MachineState, op: StringOp) -> MachineState {
    let si = s.regs.si;
    let di = s.regs.di;
    match op {
        StringOp::Movsb => step_di(step_si(s.store_byte(Segment::ES, di, s.byte_at(Segment::DS, si)), 1), 1),
        StringOp::Movsw => step_di(step_si(s.store_word(Segment::ES, di, s.word_at(Segment::DS, si)), 2), 2),
        StringOp::Cmpsb => step_di(
            step_si(
                s.with_segment(Segment::ES).with_flags(
                    s.flags.after_alu(
                        crate::flags::AluOp::Cmp,
                        s.byte_at(Segment::DS, si) as u16,
                        s.byte_at(Segment::ES, di) as u16,
                        crate::flags::Width::Byte,
                    ),
                ),
                1,
            ),
            1,
        ),
        StringOp::Cmpsw => step_di(
            step_si(
                s.with_segment(Segment::ES).with_flags(
                    s.flags.after_alu(
                        crate::flags::AluOp::Cmp,
                        s.word_at(Segment::DS, si),
                        s.word_at(Segment::ES, di),
                        crate::flags::Width::Word,
                    ),
                ),
                2,
            ),
            2,
        ),
        StringOp::Lodsb => step_si(
            MachineState {
                regs: s.regs.with_byte(register::Byte::AL, s.byte_at(Segment::DS, si)),
                segment: Segment::DS,
                ..s
            },
            1,
        ),
        StringOp::Lodsw => step_si(
            s.with_reg(register::Word::AX, s.word_at(Segment::DS, si)).with_segment(Segment::DS),
            2,
        ),
        StringOp::Stosb => step_di(s.store_byte(Segment::ES, di, s.regs.byte(register::Byte::AL)), 1),
        StringOp::Stosw => step_di(s.store_word(Segment::ES, di, s.regs.ax), 2),
        StringOp::Scasb => step_di(
            s.with_segment(Segment::ES).with_flags(
                s.flags.after_alu(
                    crate::flags::AluOp::Cmp,
                    s.regs.byte(register::Byte::AL) as u16,
                    s.byte_at(Segment::ES, di) as u16,
                    crate::flags::Width::Byte,
                ),
            ),
            1,
        ),
        StringOp::Scasw => step_di(
            s.with_segment(Segment::ES).with_flags(
                s.flags.after_alu(
                    crate::flags::AluOp::Cmp,
                    s.regs.ax,
                    s.word_at(Segment::ES, di),
                    crate::flags::Width::Word,
                ),
            ),
            2,
        ),
    }
}

/// The clock cycles of one string primitive.
pub open spec fn string_cycles(op: StringOp) -> usize {
    match op {
        StringOp::Movsb => 18,
        StringOp::Movsw => 26,
        StringOp::Cmpsb | StringOp::Cmpsw => 30,
        StringOp::Lodsb | StringOp::Lodsw => 16,
        StringOp::Stosb => 11,
        StringOp::Stosw => 15,
        StringOp::Scasb | StringOp::Scasw => 19,
    }
}

/// Steps SI by `amount`: up when DF is clear, down when it is set.
pub fn move_si(cpu: &mut CPU, amount: u16)
    ensures
        final(cpu)@ == step_si(old(cpu)@, amount),
        final(cpu).wf() == old(cpu).wf(),
{
    if !cpu.flags.direction {
        cpu.regs.si = cpu.regs.si.wrapping_add(amount);
    } else {
        cpu.regs.si = cpu.regs.si.wrapping_sub(amount);
    }
}

/// Steps DI by `amount`: up when DF is clear, down when it is set.
pub fn move_di(cpu: &mut CPU, amount: u16)
    ensures
        final(cpu)@ == step_di(old(cpu)@, amount),
        final(cpu).wf() == old(cpu).wf(),
{
    if !cpu.flags.direction {
        cpu.regs.di = cpu.regs.di.wrapping_add(amount);
    } else {
        cpu.regs.di = cpu.regs.di.wrapping_sub(amount);
    }
}

/// MOVSB: copies the byte at DS:SI to ES:DI.
pub fn movsb(cpu: &mut CPU) -> (r: usize)
    requires
        old(cpu).wf(),
    ensures
        final(cpu).wf(),
        final(cpu)@ == string_step(old(cpu)@, StringOp::Movsb),
        r == 18,
{
    proof {
        reveal(string_step);
    }
    cpu.memory.current_segment = Segment::DS;
    let value = cpu.memory.get_byte(cpu.regs.si);
    cpu.memory.current_segment = Segment::ES;
    cpu.memory.set_byte(cpu.regs.di, value);
    move_si(cpu, 1);
    move_di(cpu, 1);
    18
}

/// MOVSW: copies the word at DS:SI to ES:DI.
pub fn movsw(cpu: &mut CPU) -> (r: usize)
    requires
        old(cpu).wf(),
    ensures
        final(cpu).wf(),
        final(cpu)@ == string_step(old(cpu)@, StringOp::Movsw),
        r == 26,
{
    proof {
        reveal(string_step);
    }
    let ghost s = cpu@;
    cpu.memory.current_segment = Segment::DS;
    let value = cpu.memory.get_word(cpu.regs.si);
    cpu.memory.current_segment = Segment::ES;
    cpu.memory.set_word(cpu.regs.di, value);
    assert(cpu@.ram =~= s.store_word(Segment::ES, s.regs.di, value).ram);
    move_si(cpu, 2);
    move_di(cpu, 2);
    26
}

/// CMPSB: compares the byte at DS:SI with the one at ES:DI.
pub fn cmpsb(cpu: &mut CPU) -> (r: usize)
    requires
        old(cpu).wf(),
    ensures
        final(cpu).wf(),
        final(cpu)@ == string_step(old(cpu)@, StringOp::Cmpsb),
        r == 30,
{
    proof {
        reveal(string_step);
    }
    cpu.memory.current_segment = Segment::DS;
    let set_val = cpu.memory.get_byte(cpu.regs.si);
    cpu.memory.current_segment = Segment::ES;
    let get_val = cpu.memory.get_byte(cpu.regs.di);
    cpu.flags.cmp_sub_byte(set_val, get_val);
    move_si(cpu, 1);
    move_di(cpu, 1);
    30
}

/// CMPSW: compares the word at DS:SI with the one at ES:DI.
pub fn cmpsw(cpu: &mut CPU) -> (r: usize)
    requires
        old(cpu).wf(),
    ensures
        final(cpu).wf(),
        final(cpu)@ == string_step(old(cpu)@, StringOp::Cmpsw),
        r == 30,
{
    proof {
        reveal(string_step);
    }
    cpu.memory.current_segment = Segment::DS;
    let set_val = cpu.memory.get_word(cpu.regs.si);
    cpu.memory.current_segment = Segment::ES;
    let get_val = cpu.memory.get_word(cpu.regs.di);
    cpu.flags.cmp_sub_word(set_val, get_val);
    move_si(cpu, 2);
    move_di(cpu, 2);
    30
}

/// LODSB: loads AL from DS:SI.
pub fn lodsb(cpu: &mut CPU) -> (r: usize)
    requires
        old(cpu).wf(),
    ensures
        final(cpu).wf(),
        final(cpu)@ == string_step(old(cpu)@, StringOp::Lodsb),
        r == 16,
{
    proof {
        reveal(string_step);
    }
    cpu.memory.current_segment = Segment::DS;
    let value = cpu.memory.get_byte(cpu.regs.si);
    cpu.regs.set_byte(&register::Byte::AL, value);
    move_si(cpu, 1);
    16
}

/// LODSW: loads AX from DS:SI.
pub fn lodsw(cpu: &mut CPU) -> (r: usize)
    requires
        old(cpu).wf(),
    ensures
        final(cpu).wf(),
        final(cpu)@ == string_step(old(cpu)@, StringOp::Lodsw),
        r == 16,
{
    proof {
        reveal(string_step);
    }
    cpu.memory.current_segment = Segment::DS;
    let value = cpu.memory.get_word(cpu.regs.si);
    cpu.regs.set_word(&register::Word::AX, value);
    move_si(cpu, 2);
    16
}

/// STOSB: stores AL at ES:DI.
pub fn stosb(cpu: &mut CPU) -> (r: usize)
    requires
        old(cpu).wf(),
    ensures
        final(cpu).wf(),
        final(cpu)@ == string_step(old(cpu)@, StringOp::Stosb),
        r == 11,
{
    proof {
        reveal(string_step);
    }
    let value = cpu.regs.get_byte(&register::Byte::AL);
    cpu.memory.current_segment = Segment::ES;
    cpu.memory.set_byte(cpu.regs.di, value);
    move_di(cpu, 1);
    11
}

/// STOSW: stores AX at ES:DI.
pub fn stosw(cpu: &mut CPU) -> (r: usize)
    requires
        old(cpu).wf(),
    ensures
        final(cpu).wf(),
        final(cpu)@ == string_step(old(cpu)@, StringOp::Stosw),
        r == 15,
{
    proof {
        reveal(string_step);
    }
    let ghost s = cpu@;
    let value = cpu.regs.get_word(&register::Word::AX);
    cpu.memory.current_segment = Segment::ES;
    cpu.memory.set_word(cpu.regs.di, value);
    assert(cpu@.ram =~= s.store_word(Segment::ES, s.regs.di, value).ram);
    move_di(cpu, 2);
    15
}

/// SCASB: compares AL with the byte at ES:DI.
pub fn scasb(cpu: &mut CPU) -> (r: usize)
    requires
        old(cpu).wf(),
    ensures
        final(cpu).wf(),
        final(cpu)@ == string_step(old(cpu)@, StringOp::Scasb),
        r == 19,
{
    proof {
        reveal(string_step);
    }
    let set_val = cpu.regs.get_byte(&register::Byte::AL);
    cpu.memory.current_segment = Segment::ES;
    let get_val = cpu.memory.get_byte(cpu.regs.di);
    cpu.flags.cmp_sub_byte(set_val, get_val);
    move_di(cpu, 1);
    19
}

/// SCASW: compares AX with the word at ES:DI.
pub fn scasw(cpu: &mut CPU) -> (r: usize)
    requires
        old(cpu).wf(),
    ensures
        final(cpu).wf(),
        final(cpu)@ == string_step(old(cpu)@, StringOp::Scasw),
        r == 19,
{
    proof {
        reveal(string_step);
    }
    let set_val = cpu.regs.get_word(&register::Word::AX);
    cpu.memory.current_segment = Segment::ES;
    let get_val = cpu.memory.get_word(cpu.regs.di);
    cpu.flags.cmp_sub_word(set_val, get_val);
    move_di(cpu, 2);
    19
}

/// Runs one string primitive.
pub fn run_string(cpu: &mut CPU, op: StringOp) -> (r: usize)
    requires
        old(cpu).wf(),
    ensures
        final(cpu).wf(),
        final(cpu)@ == string_step(old(cpu)@, op),
        r == string_cycles(op),
{
    match op {
        StringOp::Movsb => movsb(cpu),
        StringOp::Movsw => movsw(cpu),
        StringOp::Cmpsb => cmpsb(cpu),
        StringOp::Cmpsw => cmpsw(cpu),
        StringOp::Lodsb => lodsb(cpu),
        StringOp::Lodsw => lodsw(cpu),
        StringOp::Stosb => stosb(cpu),
        StringOp::Stosw => stosw(cpu),
        StringOp::Scasb => scasb(cpu),
        StringOp::Scasw => scasw(cpu),
    }
}

/// One round of a REP-prefixed primitive. With CX zero nothing runs.
/// Otherwise the primitive runs once and CX drops by one; IP goes back to
/// the prefix at `prefix_ip` while CX is not zero and, for a comparing
/// primitive, ZF still equals `zero` (REPZ when `zero`, REPNZ when not).
/// When CX has reached zero after a primitive that does not compare, ZF is
/// set.
pub open spec fn rep_step(s: MachineState, zero: bool, op: StringOp, prefix_ip: u16) -> MachineState {
    if s.regs.cx == 0 {
        if compares(op) {
            s
        } else {
            s.with_flags(Flags { zero: true, ..s.flags })
        }
    } else {
        let t = string_step(s, op);
        let cx = (s.regs.cx - 1) as u16;
        let u = t.with_reg(register::Word::CX, cx);
        if cx != 0 && (!compares(op) || u.flags.zero == zero) {
            u.with_ip(prefix_ip)
        } else if cx == 0 && !compares(op) {
            u.with_flags(Flags { zero: true, ..u.flags })
        } else {
            u
        }
    }
}

/// REP, REPZ and REPNZ: one round of the repeated primitive (see
/// `rep_step`). The scheduler comes back to the prefix for the next round.
pub fn rep(cpu: &mut CPU, zero: bool, op: StringOp, prefix_ip: u16) -> (r: usize)
    requires
        old(cpu).wf(),
    ensures
        final(cpu).wf(),
        final(cpu)@ == rep_step(old(cpu)@, zero, op, prefix_ip),
        r == (if old(cpu).regs.cx == 0 { 2 } else { string_cycles(op) + 2 }),
{
    if cpu.regs.cx == 0 {
        if !(op == StringOp::Cmpsb || op == StringOp::Cmpsw || op == StringOp::Scasb || op
            == StringOp::Scasw) {
            cpu.flags.zero = true;
        }
        return 2;
    }
    proof {
        lemma_string_step_keeps(cpu@, op);
    }
    let cycles = run_string(cpu, op);
    cpu.regs.cx = cpu.regs.cx - 1;
    let comparing = op == StringOp::Cmpsb || op == StringOp::Cmpsw || op == StringOp::Scasb || op
        == StringOp::Scasw;
    if cpu.regs.cx != 0 && (!comparing || cpu.flags.zero == zero) {
        cpu.memory.ip = prefix_ip;
    } else if cpu.regs.cx == 0 && !comparing {
        cpu.flags.zero = true;
    }
    cycles + 2
}

/// `k` rounds of a REP prefix.
pub open spec fn rep_rounds(s: MachineState, zero: bool, op: StringOp, prefix_ip: u16, k: nat) -> MachineState
    decreases k,
{
    if k == 0 {
        s
    } else {
        rep_rounds(rep_step(s, zero, op, prefix_ip), zero, op, prefix_ip, (k - 1) as nat)
    }
}

/// `REP MOVSB` with CX = n is done after n rounds (one round when n is
/// zero), each copying one byte: CX is then zero, ZF is set, and SI and DI
/// have each moved by exactly n, up when DF is clear and down when it is
/// set; a further round changes nothing.
pub proof fn lemma_rep_movsb(s: MachineState, prefix_ip: u16)
    ensures
        ({
            let n = s.regs.cx as nat;
            let t = rep_rounds(s, true, StringOp::Movsb, prefix_ip, if n == 0 { 1 } else { n });
            &&& t.regs.cx == 0
            &&& t.flags.zero
            &&& t.flags.direction == s.flags.direction
            &&& t.regs.si == stepped_by(s.regs.si, 1, n, s.flags.direction)
            &&& t.regs.di == stepped_by(s.regs.di, 1, n, s.flags.direction)
            &&& rep_step(t, true, StringOp::Movsb, prefix_ip) == t
        }),
{
    let n = s.regs.cx as nat;
    lemma_rep_movsb_rounds(s, prefix_ip, n);
    let t = rep_rounds(s, true, StringOp::Movsb, prefix_ip, if n == 0 { 1 } else { n });
    if n == 0 {
        let s1 = rep_step(s, true, StringOp::Movsb, prefix_ip);
        assert(rep_rounds(s1, true, StringOp::Movsb, prefix_ip, 0) == s1);
        assert(t == s1);
        assert(stepped_by(s.regs.si, 1, 0, s.flags.direction) == s.regs.si);
        assert(stepped_by(s.regs.di, 1, 0, s.flags.direction) == s.regs.di);
    }
    assert(rep_step(t, true, StringOp::Movsb, prefix_ip).flags =~= t.flags);
}

proof fn lemma_rep_movsb_rounds(s: MachineState, prefix_ip: u16, j: nat)
    requires
        s.regs.cx == j,
    ensures
        ({
            let t = rep_rounds(s, true, StringOp::Movsb, prefix_ip, j);
            &&& t.regs.cx == 0
            &&& j > 0 ==> t.flags.zero
            &&& t.flags.direction == s.flags.direction
            &&& t.regs.si == stepped_by(s.regs.si, 1, j, s.flags.direction)
            &&& t.regs.di == stepped_by(s.regs.di, 1, j, s.flags.direction)
        }),
    decreases j,
{
    if j > 0 {
        let s1 = rep_step(s, true, StringOp::Movsb, prefix_ip);
        lemma_movsb_regs(s);
        lemma_rep_movsb_rounds(s1, prefix_ip, (j - 1) as nat);
        lemma_stepped_by_chain(s.regs.si, s.flags.direction, (j - 1) as nat);
        lemma_stepped_by_chain(s.regs.di, s.flags.direction, (j - 1) as nat);
    } else {
        assert(stepped_by(s.regs.si, 1, 0, s.flags.direction) == s.regs.si);
        assert(stepped_by(s.regs.di, 1, 0, s.flags.direction) == s.regs.di);
    }
}

proof fn lemma_stepped_by_chain(v: u16, down: bool, m: nat)
    ensures
        stepped_by(stepped(v, 1, down), 1, m, down) == stepped_by(v, 1, m + 1, down),
{
    let big_m: int = 0x1_0000;
    if down {
        let x = v - 1 + big_m;
        lemma_add_mod_noop_right(-(m as int), x, big_m);
        lemma_mod_add_multiples_vanish(v - 1 - m, big_m);
        assert(-(m as int) + x == big_m + (v - 1 - m));
    } else {
        lemma_add_mod_noop_right(m as int, v + 1, big_m);
        assert(m + (v + 1) == v + (m + 1));
    }
}

/// The source offset of the `k`-th byte of a forward MOVSB run.
pub open spec fn src_at(s: MachineState, k: int) -> int {
    physical(s.ds, ((s.regs.si + k) % 0x1_0000) as u16)
}

/// The destination address of the `k`-th byte of a forward MOVSB run.
pub open spec fn dst_at(s: MachineState, k: int) -> int {
    physical(s.es, ((s.regs.di + k) % 0x1_0000) as u16)
}

/// One forward MOVSB round with CX not zero: one byte copied, SI and DI up
/// by one, CX down by one.
proof fn lemma_movsb_round(s: MachineState, prefix_ip: u16)
    requires
        s.regs.cx > 0,
        !s.flags.direction,
        s.ram.len() == crate::memory::MEMORY_SIZE,
    ensures
        ({
            let t = rep_step(s, true, StringOp::Movsb, prefix_ip);
            &&& t.ram == s.ram.update(dst_at(s, 0), s.ram[src_at(s, 0)])
            &&& t.es == s.es && t.ds == s.ds
            &&& t.regs.cx == s.regs.cx - 1
            &&& t.regs.si == (s.regs.si + 1) % 0x1_0000
            &&& t.regs.di == (s.regs.di + 1) % 0x1_0000
            &&& !t.flags.direction
        }),
{
    lemma_movsb_regs(s);
    lemma_movsb_memory(s);
    assert((s.regs.si + 0) % 0x1_0000 == s.regs.si);
    assert((s.regs.di + 0) % 0x1_0000 == s.regs.di);
}

/// The memory and segments after one MOVSB.
proof fn lemma_movsb_memory(s: MachineState)
    ensures
        string_step(s, StringOp::Movsb).ram == s.ram.update(
            physical(s.es, s.regs.di),
            s.ram[physical(s.ds, s.regs.si)],
        ),
        string_step(s, StringOp::Movsb).es == s.es,
        string_step(s, StringOp::Movsb).ds == s.ds,
{
    reveal(string_step);
}

/// Two different offsets of one segment name different addresses.
proof fn lemma_offsets_differ(seg: u16, a: u16, b: u16)
    requires
        a != b,
    ensures
        physical(seg, a) != physical(seg, b),
{
}

/// `REP MOVSB` run forward with CX = n over a source and a destination that
/// do not overlap copies exactly the n source bytes to the destination, in
/// order, and leaves every other byte of memory as it was.
pub proof fn lemma_rep_movsb_copies(s: MachineState, prefix_ip: u16)
    requires
        s.ram.len() == crate::memory::MEMORY_SIZE,
        !s.flags.direction,
        forall|j: int, k: int|
            0 <= j < s.regs.cx && 0 <= k < s.regs.cx ==> #[trigger] dst_at(s, j) != #[trigger] src_at(s, k),
    ensures
        ({
            let t = rep_rounds(s, true, StringOp::Movsb, prefix_ip, s.regs.cx as nat);
            &&& forall|k: int| 0 <= k < s.regs.cx ==> #[trigger] t.ram[dst_at(s, k)] == s.ram[src_at(s, k)]
            &&& forall|a: int|
                0 <= a < crate::memory::MEMORY_SIZE && (forall|k: int| 0 <= k < s.regs.cx ==> a != #[trigger] dst_at(s, k))
                    ==> #[trigger] t.ram[a] == s.ram[a]
            &&& t.ram.len() == s.ram.len()
        }),
    decreases s.regs.cx,
{
    let n = s.regs.cx as int;
    if n > 0 {
        let s1 = rep_step(s, true, StringOp::Movsb, prefix_ip);
        lemma_movsb_round(s, prefix_ip);
        lemma_shifted_run(s, s1, n);
        lemma_rep_movsb_copies(s1, prefix_ip);
        let t = rep_rounds(s, true, StringOp::Movsb, prefix_ip, n as nat);
        assert(t == rep_rounds(s1, true, StringOp::Movsb, prefix_ip, (n - 1) as nat));
        lemma_first_destination_distinct(s, n);
        lemma_copies_step(s, s1, t, n);
    } else {
        assert(rep_rounds(s, true, StringOp::Movsb, prefix_ip, 0) == s);
    }
}

/// After one round, the run's offsets are those of the old run moved by one,
/// and the rest of the run still keeps source and destination apart.
proof fn lemma_shifted_run(s: MachineState, s1: MachineState, n: int)
    requires
        n == s.regs.cx,
        s1.regs.cx == n - 1,
        s1.es == s.es && s1.ds == s.ds,
        s1.regs.si == (s.regs.si + 1) % 0x1_0000,
        s1.regs.di == (s.regs.di + 1) % 0x1_0000,
        forall|j: int, k: int|
            0 <= j < n && 0 <= k < n ==> #[trigger] dst_at(s, j) != #[trigger] src_at(s, k),
    ensures
        forall|k: int| 0 <= k < n - 1 ==> #[trigger] dst_at(s1, k) == dst_at(s, k + 1),
        forall|k: int| 0 <= k < n - 1 ==> #[trigger] src_at(s1, k) == src_at(s, k + 1),
        forall|j: int, k: int|
            0 <= j < s1.regs.cx && 0 <= k < s1.regs.cx ==> #[trigger] dst_at(s1, j) != #[trigger] src_at(s1, k),
{
    assert forall|k: int| 0 <= k < n - 1 implies #[trigger] dst_at(s1, k) == dst_at(s, k + 1) by {
        assert(((s.regs.di + 1) % 0x1_0000 + k) % 0x1_0000 == (s.regs.di + (k + 1)) % 0x1_0000);
    }
    assert forall|k: int| 0 <= k < n - 1 implies #[trigger] src_at(s1, k) == src_at(s, k + 1) by {
        assert(((s.regs.si + 1) % 0x1_0000 + k) % 0x1_0000 == (s.regs.si + (k + 1)) % 0x1_0000);
    }
    assert forall|j: int, k: int|
        0 <= j < s1.regs.cx && 0 <= k < s1.regs.cx implies #[trigger] dst_at(s1, j) != #[trigger] src_at(s1, k) by {
        assert(dst_at(s1, j) == dst_at(s, j + 1));
        assert(src_at(s1, k) == src_at(s, k + 1));
    }
}

/// The first destination of a run of at most 0xFFFF bytes differs from
/// every later one.
proof fn lemma_first_destination_distinct(s: MachineState, n: int)
    requires
        n <= 0xFFFF,
    ensures
        forall|k: int| 0 < k < n ==> dst_at(s, 0) != #[trigger] dst_at(s, k),
{
    assert forall|k: int| 0 < k < n implies dst_at(s, 0) != #[trigger] dst_at(s, k) by {
        assert((s.regs.di + 0) % 0x1_0000 != (s.regs.di + k) % 0x1_0000);
        lemma_offsets_differ(s.es, ((s.regs.di + 0) % 0x1_0000) as u16, ((s.regs.di + k) % 0x1_0000) as u16);
    }
}

/// Combines the first round's copy with what the remaining rounds do.
proof fn lemma_copies_step(s: MachineState, s1: MachineState, t: MachineState, n: int)
    requires
        n >= 1,
        s1.ram == s.ram.update(dst_at(s, 0), s.ram[src_at(s, 0)]),
        s.ram.len() == crate::memory::MEMORY_SIZE,
        0 <= dst_at(s, 0) < crate::memory::MEMORY_SIZE,
        forall|k: int| 0 <= k < n - 1 ==> #[trigger] dst_at(s1, k) == dst_at(s, k + 1),
        forall|k: int| 0 <= k < n - 1 ==> #[trigger] src_at(s1, k) == src_at(s, k + 1),
        forall|j: int, k: int|
            0 <= j < n && 0 <= k < n ==> #[trigger] dst_at(s, j) != #[trigger] src_at(s, k),
        forall|k: int| 0 < k < n ==> dst_at(s, 0) != #[trigger] dst_at(s, k),
        forall|k: int| 0 <= k < n - 1 ==> #[trigger] t.ram[dst_at(s1, k)] == s1.ram[src_at(s1, k)],
        forall|a: int|
            0 <= a < crate::memory::MEMORY_SIZE && (forall|k: int| 0 <= k < n - 1 ==> a != #[trigger] dst_at(s1, k))
                ==> #[trigger] t.ram[a] == s1.ram[a],
        t.ram.len() == s1.ram.len(),
    ensures
        forall|k: int| 0 <= k < n ==> #[trigger] t.ram[dst_at(s, k)] == s.ram[src_at(s, k)],
        forall|a: int|
            0 <= a < crate::memory::MEMORY_SIZE && (forall|k: int| 0 <= k < n ==> a != #[trigger] dst_at(s, k))
                ==> #[trigger] t.ram[a] == s.ram[a],
        t.ram.len() == s.ram.len(),
{
    assert forall|k: int| 0 <= k < n implies #[trigger] t.ram[dst_at(s, k)] == s.ram[src_at(s, k)] by {
        if k == 0 {
            assert forall|m: int| 0 <= m < n - 1 implies dst_at(s, 0) != #[trigger] dst_at(s1, m) by {
                assert(dst_at(s1, m) == dst_at(s, m + 1));
            }
            assert(dst_at(s, 0) != src_at(s, 0));
        } else {
            assert(dst_at(s1, k - 1) == dst_at(s, k));
            assert(src_at(s1, k - 1) == src_at(s, k));
            assert(src_at(s, k) != dst_at(s, 0));
        }
    }
    assert forall|a: int|
        0 <= a < crate::memory::MEMORY_SIZE && (forall|k: int| 0 <= k < n ==> a != #[trigger] dst_at(s, k))
            implies #[trigger] t.ram[a] == s.ram[a] by {
        assert(a != dst_at(s, 0));
        assert forall|m: int| 0 <= m < n - 1 implies a != #[trigger] dst_at(s1, m) by {
            assert(dst_at(s1, m) == dst_at(s, m + 1));
        }
    }
}

/// Where one round of `REP MOVSB` leaves IP and CX, for a round entered
/// with IP past the MOVSB: while more than one element remains it goes back
/// to the prefix; the round that moves the last element leaves IP past the
/// MOVSB; a round with CX zero moves nothing and leaves IP there too.
/// So a run from CX = n moves n elements and ends with IP past the MOVSB.
pub proof fn lemma_rep_round_ip(u: MachineState, prefix_ip: u16)
    ensures
        ({
            let t = rep_step(u, true, StringOp::Movsb, prefix_ip);
            &&& u.regs.cx > 1 ==> t.ip == prefix_ip && t.regs.cx == u.regs.cx - 1
            &&& u.regs.cx == 1 ==> t.ip == u.ip && t.regs.cx == 0
            &&& u.regs.cx == 0 ==> t.ip == u.ip && t.ram == u.ram && t.regs == u.regs
        }),
{
    lemma_string_step_keeps(u, StringOp::Movsb);
}

/// What every string primitive keeps: CX, IP, the direction flag, and for
/// one that does not compare, all flags.
proof fn lemma_string_step_keeps(s: MachineState, op: StringOp)
    ensures
        string_step(s, op).regs.cx == s.regs.cx,
        string_step(s, op).ip == s.ip,
        string_step(s, op).flags.direction == s.flags.direction,
        !compares(op) ==> string_step(s, op).flags == s.flags,
{
    reveal(string_step);
}

/// With DF clear each primitive steps SI (if it reads DS:SI) and DI (if it
/// addresses ES:DI) up by its element size, and with DF set it steps them
/// down.
pub proof fn lemma_direction(s: MachineState, op: StringOp)
    ensures
        ({
            let t = string_step(s, op);
            let size: int = if op == StringOp::Movsb || op == StringOp::Cmpsb || op == StringOp::Lodsb
                || op == StringOp::Stosb || op == StringOp::Scasb { 1 } else { 2 };
            let reads_si = op != StringOp::Stosb && op != StringOp::Stosw && op != StringOp::Scasb
                && op != StringOp::Scasw;
            let uses_di = op != StringOp::Lodsb && op != StringOp::Lodsw;
            &&& reads_si && !s.flags.direction ==> t.regs.si == (s.regs.si + size) % 0x1_0000
            &&& reads_si && s.flags.direction ==> t.regs.si == (s.regs.si - size + 0x1_0000) % 0x1_0000
            &&& !reads_si ==> t.regs.si == s.regs.si
            &&& uses_di && !s.flags.direction ==> t.regs.di == (s.regs.di + size) % 0x1_0000
            &&& uses_di && s.flags.direction ==> t.regs.di == (s.regs.di - size + 0x1_0000) % 0x1_0000
            &&& !uses_di ==> t.regs.di == s.regs.di
        }),
{
    reveal(string_step);
}

/// The registers and flags after one MOVSB.
proof fn lemma_movsb_regs(s: MachineState)
    ensures
        string_step(s, StringOp::Movsb).regs == s.regs.with_word(
            register::Word::SI,
            stepped(s.regs.si, 1, s.flags.direction),
        ).with_word(register::Word::DI, stepped(s.regs.di, 1, s.flags.direction)),
        string_step(s, StringOp::Movsb).flags == s.flags,
{
    reveal(string_step);
}

} // verus!
