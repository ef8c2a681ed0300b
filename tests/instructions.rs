use xt_emulator::arith::{
    aad, aam, ascii_adjust, decimal_adjust_al, idiv_byte, idiv_word, imul_byte, imul_word, mul_byte, mul_word,
};
use xt_emulator::cpu::CPU;
use xt_emulator::dispatch::{single_run, Step};
use xt_emulator::memory::calculate_addr;
use xt_emulator::operand;
use xt_emulator::register::{Byte, Word};

fn machine() -> CPU {
    CPU::init(&vec![0u8; 0x1_0000], &Vec::new(), &Vec::new())
}

fn al(cpu: &CPU) -> u8 {
    cpu.regs.get_byte(&Byte::AL)
}

#[test]
fn unsigned_multiply() {
    let mut cpu = machine();
    cpu.regs.set_byte(&Byte::AL, 200);
    assert_eq!(mul_byte(&mut cpu, operand::Byte::Imm(3)), 70);
    assert_eq!(cpu.regs.ax, 600);
    assert!(cpu.flags.carry && cpu.flags.overflow);
    cpu.regs.ax = 0x1234;
    assert_eq!(mul_word(&mut cpu, operand::Word::Imm(0x100)), 118);
    assert_eq!((cpu.regs.dx, cpu.regs.ax), (0x0012, 0x3400));
    assert!(cpu.flags.carry);
}

#[test]
fn signed_multiply() {
    let mut cpu = machine();
    cpu.regs.set_byte(&Byte::AL, 0xFE);
    imul_byte(&mut cpu, operand::Byte::Imm(5));
    assert_eq!(cpu.regs.ax, 0xFFF6);
    assert!(!cpu.flags.carry && !cpu.flags.overflow);
    cpu.regs.set_byte(&Byte::AL, 0x80);
    imul_byte(&mut cpu, operand::Byte::Imm(0x80));
    assert_eq!(cpu.regs.ax, 0x4000);
    assert!(cpu.flags.carry && cpu.flags.overflow);
}

#[test]
fn signed_divide_truncates_toward_zero() {
    let mut cpu = machine();
    cpu.regs.ax = (-7i16) as u16;
    idiv_byte(&mut cpu, operand::Byte::Imm(2));
    assert_eq!(al(&cpu) as i8, -3);
    assert_eq!(cpu.regs.get_byte(&Byte::AH) as i8, -1);
}

#[test]
fn signed_divide_overflow_enters_interrupt_zero() {
    let mut cpu = machine();
    let a = calculate_addr(0, 0);
    cpu.memory.ram[a] = 0x00;
    cpu.memory.ram[a + 1] = 0x10;
    cpu.memory.ram[a + 2] = 0x00;
    cpu.memory.ram[a + 3] = 0x20;
    cpu.regs.sp = 0x100;
    cpu.regs.ax = 0x4000;
    assert_eq!(idiv_byte(&mut cpu, operand::Byte::Imm(2)), 72);
    assert_eq!((cpu.memory.cs, cpu.memory.ip), (0x2000, 0x1000));
}

#[test]
fn ascii_adjust_for_multiply_and_divide() {
    let mut cpu = machine();
    cpu.regs.set_byte(&Byte::AL, 63);
    aam(&mut cpu, 10);
    assert_eq!(cpu.regs.ax, 0x0603);
    aad(&mut cpu, 10);
    assert_eq!(cpu.regs.ax, 63);
    assert!(!cpu.flags.zero);
}

#[test]
fn decimal_adjust_after_addition_and_subtraction() {
    let mut cpu = machine();
    cpu.regs.set_byte(&Byte::AL, 0x79);
    cpu.flags.alu(xt_emulator::flags::AluOp::Add, 0x79, 0x35, xt_emulator::flags::Width::Byte);
    cpu.regs.set_byte(&Byte::AL, 0xAE);
    decimal_adjust_al(&mut cpu, true);
    assert_eq!(al(&cpu), 0x14);
    assert!(cpu.flags.carry);
    cpu.flags.carry = false;
    cpu.flags.adjust = false;
    cpu.regs.set_byte(&Byte::AL, 0x2F);
    decimal_adjust_al(&mut cpu, false);
    assert_eq!(al(&cpu), 0x29);
    assert!(cpu.flags.adjust && !cpu.flags.carry);
}

#[test]
fn unpacked_adjust_carries_into_ah() {
    let mut cpu = machine();
    cpu.regs.ax = 0x000F;
    cpu.flags.adjust = false;
    ascii_adjust(&mut cpu, true);
    assert_eq!(cpu.regs.ax, 0x0105);
    assert!(cpu.flags.carry && cpu.flags.adjust);
    cpu.regs.ax = 0x0102;
    cpu.flags.adjust = true;
    ascii_adjust(&mut cpu, false);
    assert_eq!(cpu.regs.ax, 0x000C);
}

#[test]
fn escape_opcode_skips_its_operand() {
    let mut cpu = machine();
    let a = calculate_addr(0xF000, 0xFFF0);
    cpu.memory.ram[a] = 0xD9;
    cpu.memory.ram[a + 1] = 0x06;
    cpu.memory.ram[a + 2] = 0x34;
    cpu.memory.ram[a + 3] = 0x12;
    assert_eq!(single_run(&mut cpu), Step::Done(2));
    assert_eq!(cpu.memory.ip, 0xFFF4);
}

#[test]
fn loop_counts_down_cx() {
    let mut cpu = machine();
    let a = calculate_addr(0xF000, 0xFFF0);
    // INC BX ; LOOP -3
    cpu.memory.ram[a] = 0x43;
    cpu.memory.ram[a + 1] = 0xE2;
    cpu.memory.ram[a + 2] = 0xFD;
    cpu.regs.cx = 3;
    for _ in 0..6 {
        single_run(&mut cpu);
    }
    assert_eq!(cpu.regs.get_word(&Word::BX), 3);
    assert_eq!(cpu.regs.cx, 0);
    assert_eq!(cpu.memory.ip, 0xFFF3);
}

#[test]
fn signed_word_multiply_and_divide() {
    let mut cpu = machine();
    cpu.regs.ax = (-300i16) as u16;
    imul_word(&mut cpu, operand::Word::Imm(200));
    assert_eq!(((cpu.regs.dx as u32) << 16 | cpu.regs.ax as u32) as i32, -60000);
    assert!(cpu.flags.carry && cpu.flags.overflow);
    idiv_word(&mut cpu, operand::Word::Imm((-7i16) as u16));
    assert_eq!(cpu.regs.ax as i16, 8571);
    assert_eq!(cpu.regs.dx as i16, -3);
}
