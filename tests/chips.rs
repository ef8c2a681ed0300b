use xt_emulator::board::{Event, IBM_XT};
use xt_emulator::dma::{FlipFlop, DMA};
use xt_emulator::fixed_disk::{FixedDisk, COMMAND_MILLIS};
use xt_emulator::graphics::{Graphics, Register, SYNC_HIGH_MICROS, SYNC_LOW_MICROS};
use xt_emulator::pic::PIC;
use xt_emulator::pit::{Access, Counter, Mode, PIT, TICK_NANOS};

#[test]
fn pit_mode_zero_raises_irq0_after_count_ticks() {
    let mut board = IBM_XT::init();
    assert_eq!(board.out_byte(0x43, 0x30), Event::Nothing);
    assert_eq!(board.pit.c0.mode, Mode::Interrupt);
    assert_eq!(board.pit.c0.access, Access::LSBThenMSB);
    assert_eq!(board.out_byte(0x40, 0x04), Event::Nothing);
    assert_eq!(board.out_byte(0x40, 0x00), Event::StartTimer(0));
    // Ticks come every TICK_NANOS of simulated time from the load.
    let mut now: u64 = 0;
    let mut fired_at = None;
    for _ in 0..4 {
        now += TICK_NANOS;
        let (tick, vector) = board.timer_tick(0);
        if tick.interrupt {
            assert_eq!(vector, Some(8));
            fired_at = Some(now);
        } else {
            assert!(tick.reschedule);
            assert_eq!(vector, None);
        }
    }
    assert_eq!(fired_at, Some(4 * 838));
    let (tick, vector) = board.timer_tick(0);
    assert!(!tick.interrupt && !tick.reschedule);
    assert_eq!(vector, None);
}

#[test]
fn pit_other_counters_do_not_interrupt() {
    let mut board = IBM_XT::init();
    board.out_byte(0x43, 0b0101_0000);
    assert_eq!(board.out_byte(0x41, 0x01), Event::StartTimer(1));
    let (tick, vector) = board.timer_tick(1);
    assert!(tick.interrupt);
    assert!(!tick.reschedule);
    assert_eq!(vector, None);
    assert_eq!(board.pic.in_service, 0);
}

#[test]
fn pit_refuses_bcd_and_read_back() {
    let mut board = IBM_XT::init();
    assert!(!PIT::control_word_ok(0x31));
    assert!(!PIT::control_word_ok(0xC0));
    assert!(PIT::control_word_ok(0x30));
    assert!(PIT::control_word_ok(0x01));
    assert!(!board.accepts_out(0x43, 0x31));
    assert!(!board.accepts_out(0x43, 0xC0));
    assert!(board.accepts_out(0x43, 0x30));
}

#[test]
fn pit_latch_holds_count_until_read() {
    let mut c = Counter::init(0);
    c.set_control_word(0b0011_0100);
    assert!(!c.set_count(0x10));
    assert!(c.set_count(0x02));
    assert_eq!(c.counting_element, 0x0210);
    c.single_run();
    assert_eq!(c.output_latch, 0x020F);
    c.set_control_word(0b0000_0000);
    assert!(c.latched);
    c.single_run();
    assert_eq!(c.output_latch, 0x020F);
    assert_eq!(c.get_count(), 0x0F);
    assert!(c.latched);
    assert_eq!(c.get_count(), 0x02);
    assert!(!c.latched);
}

#[test]
fn pit_msb_access_loads_high_byte() {
    let mut c = Counter::init(2);
    c.set_control_word(0b0010_0100);
    assert!(c.set_count(0x12));
    assert_eq!(c.initial_count_register, 0x1200);
    assert_eq!(c.mode, Mode::RateGenerator);
}

#[test]
fn dma_flip_flop_assembles_address() {
    let mut board = IBM_XT::init();
    board.out_byte(0x0D, 0);
    assert!(board.dma.channel_0.mask);
    board.out_byte(0x00, 0x34);
    assert_eq!(board.dma.channel_0.flip_flop, FlipFlop::High);
    board.out_byte(0x00, 0x12);
    assert_eq!(board.dma.channel_0.address, 0x1234);
    assert_eq!(board.dma.channel_0.flip_flop, FlipFlop::Low);
    assert_eq!(board.in_byte(0x00), 0x34);
    assert_eq!(board.in_byte(0x00), 0x12);
}

#[test]
fn dma_count_masks_and_mode() {
    let mut d = DMA::init();
    d.set_count(3, 0xFF);
    d.set_count(3, 0x01);
    assert_eq!(d.channel_3.count, 0x01FF);
    d.set_masks(0b1010);
    assert!(!d.channel_0.mask && d.channel_1.mask && !d.channel_2.mask && d.channel_3.mask);
    d.reset_mask();
    assert!(!d.channel_1.mask && !d.channel_3.mask);
    d.set_mask(0b110);
    assert!(d.channel_2.mask);
    d.set_mode(0b1000_0101);
    assert_eq!(d.channel_1.transfer_type, xt_emulator::dma::TransferType::WriteToMemory);
    assert_eq!(d.channel_1.transfer_mode, xt_emulator::dma::TransferMode::BlockDMA);
    d.set_address(2, 0x55);
    d.reset_flip_flop();
    assert_eq!(d.channel_2.flip_flop, FlipFlop::Low);
    d.set_status(0b100);
    assert!(d.enabled);
}

#[test]
fn fixed_disk_block_completes_with_irq5() {
    let mut board = IBM_XT::init();
    assert_eq!(board.out_byte(0x322, 0), Event::Nothing);
    for i in 0..5 {
        assert_eq!(board.out_byte(0x320, if i == 1 { 0x20 } else { 0 }), Event::Nothing);
    }
    assert_eq!(board.out_byte(0x320, 0x00), Event::DiskCommand);
    assert_eq!(COMMAND_MILLIS, 10);
    assert_eq!(board.in_byte(0x321) & 0x20, 0);
    assert_eq!(board.disk_completed(), Some(13));
    assert_eq!(board.in_byte(0x321) & 0x20, 0x20);
    assert_eq!(board.in_byte(0x320), 0x20);
}

#[test]
fn fixed_disk_errors() {
    let mut d = FixedDisk::init();
    d.pulse(0);
    for _ in 0..5 {
        d.send_command(0x0F);
    }
    assert!(!d.accepts(0x02));
    assert!(d.accepts(0x05));
    let mut d = FixedDisk::init();
    d.pulse(0);
    for _ in 0..5 {
        d.send_command(0x02);
    }
    assert!(!d.accepts(0x00));
    let mut d = FixedDisk::init();
    d.pulse(0);
    for _ in 0..6 {
        d.send_command(0x00);
    }
    assert!(!d.accepts(0x00));
    d.reset(0);
    assert_eq!(d.bcd_count, 0);
    assert_eq!(d.status_register(), 0);
    d.pulse(0);
    assert_eq!(d.status_register(), 0b1101);
    d.set_dma_and_interrupt(0b11);
    assert!(d.enable_dma && d.enable_int);
}

#[test]
fn fixed_disk_decodes_block_fields() {
    let mut d = FixedDisk::init();
    d.pulse(0);
    d.send_command(0x08);
    d.send_command(0b101_00011);
    d.send_command(0b11_000101);
    d.send_command(0x34);
    d.send_command(0x07);
    assert!(d.send_command(0b1100_0101));
    assert_eq!((d.bcd_drive, d.bcd_head, d.bcd_sector), (5, 3, 5));
    assert_eq!(d.bcd_cylinder, 0x334);
    assert_eq!(d.bcd_control, 7);
    assert_eq!(d.bcd_microseconds_per_step, 70);
    assert!(d.bcd_disable_retry && d.bcd_dont_retry_read);
}

#[test]
fn unknown_ports_are_errors() {
    let mut board = IBM_XT::init();
    assert!(!board.accepts_out(0x1234, 7));
    assert!(!board.accepts_out(0x09, 7));
    assert!(!IBM_XT::accepts_in(0x43));
    assert!(!IBM_XT::accepts_in(0x3B8));
    assert!(board.accepts_out(0x3B9, 1));
    assert!(IBM_XT::accepts_in(0x3BA));
    assert_eq!(board.out_byte(0x3B9, 1), Event::Nothing);
    assert_eq!(board.in_byte(0x210), 0);
}

#[test]
fn ppi_port_b_shows_dip_banks_on_port_c() {
    let mut board = IBM_XT::init();
    board.out_byte(0x61, 0b0000_0100);
    assert_eq!(board.in_byte(0x62), 0b0011);
    board.out_byte(0x61, 0b0000_0001);
    assert_eq!(board.in_byte(0x62), 0x20 | 0b1110);
    assert!(!board.enable_speaker);
    board.out_byte(0x60, 0x99);
    board.out_byte(0x61, 0b1100_0011);
    assert!(board.enable_speaker && board.enable_keyboard);
    assert_eq!(board.in_byte(0x60), 0);
    assert_eq!(board.in_byte(0x61), 0b1100_0011);
}

#[test]
fn nmi_mask_port() {
    let mut board = IBM_XT::init();
    board.out_byte(0xA0, 0x80);
    assert!(board.enable_nmi);
    board.out_byte(0xA0, 0x00);
    assert!(!board.enable_nmi);
}

#[test]
fn pic_programming_masks_and_end_of_interrupt() {
    let mut board = IBM_XT::init();
    board.out_byte(0x20, 0x13);
    board.out_byte(0x21, 0x08);
    board.out_byte(0x21, 0x09);
    board.out_byte(0x21, 0xFE);
    assert_eq!(board.in_byte(0x21), 0xFE);
    assert_eq!(board.fixed_disk_interrupt(), None);
    assert_eq!(board.timer_interrupt(0), Some(8));
    board.out_byte(0x20, 0x0B);
    assert_eq!(board.in_byte(0x20), 0x01);
    board.out_byte(0x20, 0x20);
    assert_eq!(board.in_byte(0x20), 0x00);
    let mut p = PIC::init();
    p.raise(3);
    p.raise(1);
    p.out_port_1(0x20);
    assert_eq!(p.in_service, 0b1000);
}

#[test]
fn crt_registers_and_sync() {
    let mut g = Graphics::init();
    g.choose_register(0x0E);
    assert_eq!(g.current_register, Register::CursorAddressMSB);
    g.set_register_data(0x12);
    g.choose_register(0x0F);
    g.set_register_data(0x34);
    assert_eq!(g.cursor_address, 0x1234);
    g.choose_register(0x01);
    g.set_register_data(80);
    assert_eq!(g.horizontal_displayed_characters_per_line, 80);
    g.choose_register(0x40);
    assert_eq!(g.current_register, Register::HorizontalTotalCharacter);
    assert!(g.set_mode_bw(0b0010_1001));
    assert_eq!(g.get_mode_bw(), 0b0010_1001);
    assert_eq!(g.vertical_sync_start(), Some(SYNC_HIGH_MICROS));
    assert_eq!(g.get_status(), 0b1001);
    assert_eq!(g.vertical_sync_end(), Some(SYNC_LOW_MICROS));
    assert_eq!(g.get_status(), 0);
    assert!(!g.set_mode_color(0b0001_0110));
    assert_eq!(g.vertical_sync_start(), None);
    assert!(g.color_options.black_white && g.color_options.black_white_640x200);
}

#[test]
fn crt_mode_port_starts_sync() {
    let mut board = IBM_XT::init();
    assert_eq!(board.out_byte(0x3B8, 0b1000), Event::StartSync);
    assert_eq!(board.graphics.vertical_sync_start(), Some(1_600));
    assert_eq!(board.in_byte(0x3BA), 0b1001);
}
