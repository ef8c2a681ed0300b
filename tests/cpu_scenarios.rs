use xt_emulator::cpu::CPU;
use xt_emulator::dispatch::{interrupt, single_run, Step};
use xt_emulator::memory::{bios_size_ok, calculate_addr};
use xt_emulator::register::Word;

fn machine() -> CPU {
    let bios = vec![0u8; 0x1_0000];
    CPU::init(&bios, &Vec::new(), &Vec::new())
}

fn poke(cpu: &mut CPU, seg: u16, off: u16, bytes: &[u8]) {
    for (i, b) in bytes.iter().enumerate() {
        let a = calculate_addr(seg, off.wrapping_add(i as u16));
        cpu.memory.ram[a] = *b;
    }
}

fn peek(cpu: &CPU, seg: u16, off: u16) -> u8 {
    cpu.memory.ram[calculate_addr(seg, off)]
}

#[test]
fn reset_vector_and_far_jump() {
    let mut cpu = machine();
    assert_eq!(cpu.memory.cs, 0xF000);
    assert_eq!(cpu.memory.ip, 0xFFF0);
    assert_eq!((cpu.memory.ss, cpu.memory.ds, cpu.memory.es), (0, 0, 0));
    assert_eq!(cpu.flags.get_bits_word(), 0);
    assert_eq!(cpu.current_address, 0xF_FFF0);
    poke(&mut cpu, 0xF000, 0xFFF0, &[0xEA, 0x5B, 0xE0, 0x00, 0xF0]);
    let step = single_run(&mut cpu);
    assert!(matches!(step, Step::Done(_)));
    assert_eq!(cpu.memory.cs, 0xF000);
    assert_eq!(cpu.memory.ip, 0xE05B);
}

#[test]
fn bios_of_wrong_size_is_refused() {
    assert!(!bios_size_ok(&vec![0u8; 0x8000]));
    assert!(!bios_size_ok(&vec![0u8; 0x1_0001]));
    assert!(bios_size_ok(&vec![0u8; 0x1_0000]));
}

#[test]
fn roms_are_laid_out_in_their_slots() {
    let mut bios = vec![0u8; 0x1_0000];
    bios[0] = 0xAA;
    bios[0xFFFF] = 0xBB;
    let cpu = CPU::init(&bios, &vec![1, 2, 3], &vec![4, 5]);
    assert_eq!(cpu.memory.ram.len(), 0x10_0000);
    assert_eq!(cpu.memory.ram[0xC_0000], 1);
    assert_eq!(cpu.memory.ram[0xC_0002], 3);
    assert_eq!(cpu.memory.ram[0xC_0003], 0);
    assert_eq!(cpu.memory.ram[0xC_8000], 4);
    assert_eq!(cpu.memory.ram[0xC_8001], 5);
    assert_eq!(cpu.memory.ram[0xC_8002], 0);
    assert_eq!(cpu.memory.ram[0xF_0000], 0xAA);
    assert_eq!(cpu.memory.ram[0xF_FFFF], 0xBB);
    assert_eq!(cpu.memory.ram[0x0_1234], 0);
}

#[test]
fn divide_by_zero_enters_interrupt_zero() {
    let mut cpu = machine();
    poke(&mut cpu, 0x0000, 0x0000, &[0x34, 0x12, 0x78, 0x56]);
    cpu.regs.ax = 0x8000;
    cpu.regs.set_byte(&xt_emulator::register::Byte::BL, 0);
    cpu.regs.sp = 0x100;
    cpu.memory.ss = 0x0030;
    cpu.flags.interrupt = true;
    cpu.flags.carry = true;
    let flags_before = cpu.flags.get_bits_word();
    poke(&mut cpu, 0xF000, 0xFFF0, &[0xF6, 0xF3]);
    single_run(&mut cpu);
    assert_eq!(cpu.memory.ip, 0x1234);
    assert_eq!(cpu.memory.cs, 0x5678);
    assert!(!cpu.flags.interrupt);
    assert_eq!(cpu.regs.sp, 0x100 - 6);
    let pushed_flags = peek(&cpu, 0x30, 0xFF) as u16 * 256 + peek(&cpu, 0x30, 0xFE) as u16;
    assert_eq!(pushed_flags, flags_before);
    let pushed_cs = peek(&cpu, 0x30, 0xFD) as u16 * 256 + peek(&cpu, 0x30, 0xFC) as u16;
    let pushed_ip = peek(&cpu, 0x30, 0xFB) as u16 * 256 + peek(&cpu, 0x30, 0xFA) as u16;
    assert_eq!(pushed_cs, 0xF000);
    assert_eq!(pushed_ip, 0xFFF2);
    assert_eq!(cpu.regs.ax, 0x8000);
}

#[test]
fn divide_with_room_gives_quotient_and_remainder() {
    let mut cpu = machine();
    cpu.regs.ax = 100;
    cpu.regs.set_byte(&xt_emulator::register::Byte::BL, 7);
    poke(&mut cpu, 0xF000, 0xFFF0, &[0xF6, 0xF3]);
    single_run(&mut cpu);
    assert_eq!(cpu.regs.get_byte(&xt_emulator::register::Byte::AL), 14);
    assert_eq!(cpu.regs.get_byte(&xt_emulator::register::Byte::AH), 2);
    assert_eq!(cpu.memory.ip, 0xFFF2);
}

#[test]
fn far_call_and_far_return_round_trip() {
    let mut cpu = machine();
    cpu.regs.sp = 0x100;
    poke(&mut cpu, 0xF000, 0xFFF0, &[0x9A, 0x78, 0x56, 0x34, 0x12]);
    poke(&mut cpu, 0x1234, 0x5678, &[0xCB]);
    single_run(&mut cpu);
    assert_eq!((cpu.memory.cs, cpu.memory.ip), (0x1234, 0x5678));
    assert_eq!(cpu.regs.sp, 0xFC);
    single_run(&mut cpu);
    assert_eq!(cpu.regs.sp, 0x100);
    assert_eq!((cpu.memory.cs, cpu.memory.ip), (0xF000, 0xFFF5));
}

#[test]
fn push_then_pop_returns_value_and_stack_pointer() {
    let mut cpu = machine();
    cpu.regs.sp = 0x200;
    cpu.push(0xBEEF);
    assert_eq!(cpu.regs.sp, 0x1FE);
    assert_eq!(cpu.pop(), 0xBEEF);
    assert_eq!(cpu.regs.sp, 0x200);
}

#[test]
fn push_at_zero_wraps_stack_pointer() {
    let mut cpu = machine();
    cpu.regs.sp = 0;
    cpu.push(0x1234);
    assert_eq!(cpu.regs.sp, 0xFFFE);
    assert_eq!(cpu.pop(), 0x1234);
    assert_eq!(cpu.regs.sp, 0);
}

fn rep_movsb(direction: bool, n: u16) -> CPU {
    let mut cpu = machine();
    cpu.memory.ds = 0x1000;
    cpu.memory.es = 0x2000;
    cpu.regs.si = 0x10;
    cpu.regs.di = 0x40;
    cpu.regs.cx = n;
    cpu.flags.direction = direction;
    for i in 0..0x20u16 {
        poke(&mut cpu, 0x1000, i, &[(i as u8) + 1]);
    }
    poke(&mut cpu, 0xF000, 0xFFF0, &[0xF3, 0xA4]);
    let mut rounds = 0;
    while cpu.memory.ip != 0xFFF2 {
        single_run(&mut cpu);
        rounds += 1;
        assert!(rounds <= n as usize + 1);
    }
    cpu
}

#[test]
fn rep_movsb_moves_exactly_cx_bytes() {
    let cpu = rep_movsb(false, 5);
    assert_eq!(cpu.regs.cx, 0);
    assert!(cpu.flags.zero);
    for i in 0..5u16 {
        assert_eq!(peek(&cpu, 0x2000, 0x40 + i), peek(&cpu, 0x1000, 0x10 + i));
    }
    assert_eq!(peek(&cpu, 0x2000, 0x45), 0);
    assert_eq!(peek(&cpu, 0x2000, 0x3F), 0);
    assert_eq!((cpu.regs.si, cpu.regs.di), (0x15, 0x45));
}

#[test]
fn rep_movsb_with_zero_count_moves_nothing() {
    let cpu = rep_movsb(false, 0);
    assert_eq!(cpu.regs.cx, 0);
    assert!(cpu.flags.zero);
    assert_eq!(peek(&cpu, 0x2000, 0x40), 0);
    assert_eq!((cpu.regs.si, cpu.regs.di), (0x10, 0x40));
}

#[test]
fn direction_flag_set_steps_down() {
    let cpu = rep_movsb(true, 3);
    assert_eq!((cpu.regs.si, cpu.regs.di), (0x0D, 0x3D));
    assert_eq!(peek(&cpu, 0x2000, 0x40), peek(&cpu, 0x1000, 0x10));
    assert_eq!(peek(&cpu, 0x2000, 0x3E), peek(&cpu, 0x1000, 0x0E));
    assert_eq!(peek(&cpu, 0x2000, 0x3D), 0);
}

#[test]
fn hardware_interrupt_waits_for_interrupt_flag() {
    let mut cpu = machine();
    poke(&mut cpu, 0x0000, 8 * 4, &[0xA5, 0xFE, 0x00, 0xF0]);
    cpu.regs.sp = 0x80;
    assert!(!interrupt(&mut cpu, 8));
    assert_eq!(cpu.memory.ip, 0xFFF0);
    cpu.flags.interrupt = true;
    assert!(interrupt(&mut cpu, 8));
    assert_eq!((cpu.memory.cs, cpu.memory.ip), (0xF000, 0xFEA5));
    assert!(!cpu.flags.interrupt);
}

#[test]
fn iret_restores_flags_and_return_address() {
    let mut cpu = machine();
    poke(&mut cpu, 0x0000, 0x21 * 4, &[0x00, 0x01, 0x00, 0x20]);
    poke(&mut cpu, 0x2000, 0x0100, &[0xCF]);
    poke(&mut cpu, 0xF000, 0xFFF0, &[0xCD, 0x21]);
    cpu.regs.sp = 0x80;
    cpu.flags.interrupt = true;
    cpu.flags.carry = true;
    single_run(&mut cpu);
    assert_eq!((cpu.memory.cs, cpu.memory.ip), (0x2000, 0x0100));
    single_run(&mut cpu);
    assert_eq!((cpu.memory.cs, cpu.memory.ip), (0xF000, 0xFFF2));
    assert!(cpu.flags.interrupt && cpu.flags.carry);
    assert_eq!(cpu.regs.sp, 0x80);
}

#[test]
fn alu_and_jumps_through_the_dispatcher() {
    let mut cpu = machine();
    // MOV AL, 0xF0 ; ADD AL, 0x20 ; JC +2 ; NOP ; NOP ; HLT
    poke(&mut cpu, 0xF000, 0xFFD0, &[0xB0, 0xF0, 0x04, 0x20, 0x72, 0x02, 0x90, 0x90, 0xF4]);
    cpu.memory.ip = 0xFFD0;
    single_run(&mut cpu);
    single_run(&mut cpu);
    assert_eq!(cpu.regs.get_byte(&xt_emulator::register::Byte::AL), 0x10);
    assert!(cpu.flags.carry);
    single_run(&mut cpu);
    assert_eq!(cpu.memory.ip, 0xFFD8);
    assert!(matches!(single_run(&mut cpu), Step::Halt(_)));
}

#[test]
fn memory_operand_with_segment_override() {
    let mut cpu = machine();
    cpu.memory.es = 0x3000;
    cpu.regs.bx = 0x10;
    // MOV ES:[BX+4], AX
    cpu.regs.ax = 0xCAFE;
    poke(&mut cpu, 0xF000, 0xFFF0, &[0x26, 0x89, 0x47, 0x04]);
    single_run(&mut cpu);
    assert_eq!(peek(&cpu, 0x3000, 0x14), 0xFE);
    assert_eq!(peek(&cpu, 0x3000, 0x15), 0xCA);
    assert_eq!(cpu.memory.ip, 0xFFF4);
}

#[test]
fn out_and_in_are_handed_to_the_board() {
    let mut cpu = machine();
    cpu.regs.set_byte(&xt_emulator::register::Byte::AL, 0x5A);
    poke(&mut cpu, 0xF000, 0xFFF0, &[0xE6, 0x61, 0xE4, 0x60]);
    let s = single_run(&mut cpu);
    assert_eq!(s, Step::Port(14, xt_emulator::transfer::PortAccess::OutByte(0x61, 0x5A)));
    let s = single_run(&mut cpu);
    assert_eq!(s, Step::Port(14, xt_emulator::transfer::PortAccess::InByte(0x60)));
    cpu.set_al(0x77);
    assert_eq!(cpu.regs.get_byte(&xt_emulator::register::Byte::AL), 0x77);
}

#[test]
fn unknown_opcode_is_reported() {
    let mut cpu = machine();
    poke(&mut cpu, 0xF000, 0xFFF0, &[0x0F]);
    assert_eq!(single_run(&mut cpu), Step::Unsupported(0x0F));
}

#[test]
fn registers_start_at_zero() {
    let cpu = machine();
    for r in [Word::AX, Word::CX, Word::DX, Word::BX, Word::SP, Word::BP, Word::SI, Word::DI] {
        assert_eq!(cpu.regs.get_word(&r), 0);
    }
}
