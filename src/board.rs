//! The IBM PC/XT main board: it routes I/O ports to the chips, turns port B
//! writes of the PPI into speaker, keyboard and DIP-switch state, and passes
//! device interrupts to the interrupt controller.
use vstd::prelude::*;
use crate::dma::{read_half, DMA};
use crate::fixed_disk::{dcb_accepts, dcb_written, after_dma_and_interrupt, after_pulse, after_reset, status_of, FixedDisk};
use crate::graphics::Graphics;
use crate::pic::PIC;
use crate::pit::{after_count_read, count_completes, count_read, count_written, tick_of, Tick, PIT};
use crate::ppi::PPI;

verus! {

#[derive(Clone, Copy, Debug, PartialEq, Eq, Structural)]
pub enum BoardRam {
    K64,
    K128,
    K192,
    K256,
}

#[derive(Clone, Copy, Debug, PartialEq, Eq, Structural)]
pub enum DisplaySwitch {
    Absent,
    Color40x25,
    Color80x25,
    Monochrome80x25,
}

#[derive(Clone, Copy, Debug, PartialEq, Eq, Structural)]
pub enum Floppies {
    N1,
    N2,
    N3,
    N4,
}

/// What a port write sets going in simulated time.
#[derive(Clone, Copy, Debug, PartialEq, Eq, Structural)]
pub enum Event {
    Nothing,
    /// Timer counter `n` was loaded: its first tick is due.
    StartTimer(u8),
    /// A disk command block is complete: its completion is due.
    DiskCommand,
    /// The display was enabled: the sync oscillator starts now.
    StartSync,
}

#[allow(non_camel_case_types)]
pub struct IBM_XT {
    pub dma: DMA,
    pub pit: PIT,
    pub ppi: PPI,
    pub graphics: Graphics,
    pub pic: PIC,
    pub fixed_disk: FixedDisk,
    pub enable_nmi: bool,
    pub enable_speaker: bool,
    pub enable_keyboard: bool,
    pub dip_long_post: bool,
    pub dip_coprocessor_installed: bool,
    pub dip_board_ram: BoardRam,
    pub dip_display: DisplaySwitch,
    pub dip_floppies: Floppies,
}

/// Whether the board routes byte writes to `port`.
pub open spec fn routes_out(port: u16) -> bool {
    port <= 0x08 || (0x0A <= port <= 0x0F) || port == 0x20 || port == 0x21 || (0x40 <= port <= 0x43)
        || (0x60 <= port <= 0x63) || port == 0x83 || port == 0xA0 || port == 0x210 || (0x320 <= port
        <= 0x323) || port == 0x327 || port == 0x32B || port == 0x32F || port == 0x3B4 || port == 0x3B5
        || port == 0x3B8 || port == 0x3B9 || port == 0x3D4 || port == 0x3D5 || port == 0x3D8 || port
        == 0x3D9
}

/// Whether the board routes byte reads from `port`.
pub open spec fn routes_in(port: u16) -> bool {
    port <= 0x08 || port == 0x20 || port == 0x21 || (0x40 <= port <= 0x42) || (0x60 <= port <= 0x62)
        || port == 0x210 || port == 0x320 || port == 0x321 || port == 0x3BA
}

pub open spec fn ram_bits(r: BoardRam) -> u8 {
    match r {
        BoardRam::K64 => 0,
        BoardRam::K128 => 1,
        BoardRam::K192 => 2,
        BoardRam::K256 => 3,
    }
}

pub open spec fn display_bits(d: DisplaySwitch) -> u8 {
    match d {
        DisplaySwitch::Absent => 0,
        DisplaySwitch::Color40x25 => 1,
        DisplaySwitch::Color80x25 => 2,
        DisplaySwitch::Monochrome80x25 => 3,
    }
}

pub open spec fn floppy_bits(f: Floppies) -> u8 {
    match f {
        Floppies::N1 => 0,
        Floppies::N2 => 1,
        Floppies::N3 => 2,
        Floppies::N4 => 3,
    }
}

impl IBM_XT {
    pub open spec fn wf(&self) -> bool {
        self.pic.wf() && self.fixed_disk.bcd_drive < 8
    }

    /// Port C as the board presents it after a port B write of `value`:
    /// bit 5 mirrors the speaker timer gate; bit 2 of `value` picks the high
    /// DIP bank (display in bits 1:0, floppies in bits 3:2) or the low one
    /// (long POST bit 0, coprocessor bit 1, board RAM in bits 3:2).
    pub open spec fn port_c_for(&self, value: u8) -> u8 {
        let gate: u8 = if value & 1 == 1 { 0x20 } else { 0 };
        let bank: u8 = if value & 0b100 == 0b100 {
            (display_bits(self.dip_display) + 4 * floppy_bits(self.dip_floppies)) as u8
        } else {
            ((if self.dip_long_post { 1u8 } else { 0 }) + (if self.dip_coprocessor_installed { 2u8 } else { 0 })
                + 4 * ram_bits(self.dip_board_ram)) as u8
        };
        (gate + bank) as u8
    }

    /// The board after a PPI port B write (see `ppi_port_b`).
    pub open spec fn after_port_b(self, value: u8) -> IBM_XT {
        IBM_XT {
            ppi: PPI {
                port_b: value,
                port_c: self.port_c_for(value),
                port_a: if value & 0x80 == 0x80 { 0 } else { self.ppi.port_a },
            },
            enable_speaker: value & 1 == 1 && value & 2 == 2,
            enable_keyboard: value & 0x40 == 0x40,
            ..self
        }
    }

    /// The board after a byte write to `port`: the one chip the port is
    /// routed to changes as its method says, and nothing else changes. The
    /// undocumented ports, the expansion stub, port 0x83, the PPI
    /// configuration port and unrouted ports change nothing.
    #[verifier::opaque]
    pub open spec fn after_out(self, port: u16, value: u8) -> IBM_XT {
        if port < 8 {
            let i = (port / 2) as u8;
            IBM_XT {
                dma: if port % 2 == 0 { self.dma.after_address(i, value) } else { self.dma.after_count(i, value) },
                ..self
            }
        } else if port == 0x08 {
            IBM_XT { dma: self.dma.after_status(value), ..self }
        } else if port == 0x0A {
            IBM_XT { dma: self.dma.after_mask(value), ..self }
        } else if port == 0x0B {
            IBM_XT { dma: self.dma.after_mode(value), ..self }
        } else if port == 0x0C {
            IBM_XT { dma: self.dma.after_flip_flop_reset(), ..self }
        } else if port == 0x0D {
            IBM_XT { dma: self.dma.after_master_reset(), ..self }
        } else if port == 0x0E {
            IBM_XT { dma: self.dma.after_mask_reset(), ..self }
        } else if port == 0x0F {
            IBM_XT { dma: self.dma.after_masks(value), ..self }
        } else if port == 0x20 {
            IBM_XT { pic: self.pic.after_command(value), ..self }
        } else if port == 0x21 {
            IBM_XT { pic: self.pic.after_data(value), ..self }
        } else if 0x40 <= port <= 0x42 {
            let i = (port - 0x40) as u8;
            IBM_XT { pit: self.pit.with_counter(i, count_written(self.pit.counter(i), value)), ..self }
        } else if port == 0x43 {
            IBM_XT { pit: self.pit.after_control(value), ..self }
        } else if port == 0x60 {
            IBM_XT { ppi: PPI { port_a: value, ..self.ppi }, ..self }
        } else if port == 0x61 {
            self.after_port_b(value)
        } else if port == 0x62 {
            IBM_XT { ppi: PPI { port_c: value, ..self.ppi }, ..self }
        } else if port == 0xA0 {
            IBM_XT { enable_nmi: value & 0x80 == 0x80, ..self }
        } else if port == 0x320 {
            IBM_XT { fixed_disk: dcb_written(self.fixed_disk, value), ..self }
        } else if port == 0x321 {
            IBM_XT { fixed_disk: after_reset(self.fixed_disk), ..self }
        } else if port == 0x322 {
            IBM_XT { fixed_disk: after_pulse(self.fixed_disk), ..self }
        } else if port == 0x323 {
            IBM_XT { fixed_disk: after_dma_and_interrupt(self.fixed_disk, value), ..self }
        } else if port == 0x3B4 || port == 0x3D4 {
            IBM_XT { graphics: self.graphics.after_choose(value), ..self }
        } else if port == 0x3B5 || port == 0x3D5 {
            IBM_XT { graphics: self.graphics.after_register_data(value), ..self }
        } else if port == 0x3B8 {
            IBM_XT { graphics: self.graphics.after_mode_bw(value), ..self }
        } else if port == 0x3D8 {
            IBM_XT { graphics: self.graphics.after_mode_color(value), ..self }
        } else {
            self
        }
    }

    /// Whether the board can carry out a byte write: the port must be on
    /// the port map, a timer control word must be one the timer supports,
    /// and a disk data byte one the controller accepts. Anything else is a
    /// fatal error, so callers test this first (see `accepts_out`).
    pub open spec fn out_accepted(self, port: u16, value: u8) -> bool {
        &&& routes_out(port)
        &&& port == 0x43 ==> PIT::accepts_control(value)
        &&& port == 0x320 ==> dcb_accepts(self.fixed_disk, value)
    }

    /// The event a byte write sets going.
    #[verifier::opaque]
    pub open spec fn out_event(self, port: u16, value: u8) -> Event {
        if 0x40 <= port <= 0x42 {
            let i = (port - 0x40) as u8;
            if count_completes(self.pit.counter(i)) { Event::StartTimer(i) } else { Event::Nothing }
        } else if port == 0x320 {
            if self.fixed_disk.bcd_count == 5 { Event::DiskCommand } else { Event::Nothing }
        } else if port == 0x3B8 || port == 0x3D8 {
            if value & 0b1000 == 0b1000 { Event::StartSync } else { Event::Nothing }
        } else {
            Event::Nothing
        }
    }

    /// The board after a byte read from `port`: DMA reads toggle the
    /// channel's flip-flop and timer reads move the counter's read
    /// sequence; no other read changes anything.
    pub open spec fn after_in(self, port: u16) -> IBM_XT {
        if port < 8 {
            IBM_XT { dma: self.dma.after_read((port / 2) as u8), ..self }
        } else if 0x40 <= port <= 0x42 {
            let i = (port - 0x40) as u8;
            IBM_XT { pit: self.pit.with_counter(i, after_count_read(self.pit.counter(i))), ..self }
        } else {
            self
        }
    }

    /// What a byte read from a routed `port` returns.
    pub open spec fn in_result(self, port: u16) -> u8 {
        if port < 8 {
            let c = self.dma.channel((port / 2) as u8);
            if port % 2 == 0 { read_half(c.address, c.flip_flop) } else { read_half(c.count, c.flip_flop) }
        } else if port == 0x08 || port == 0x210 {
            0
        } else if port == 0x20 {
            self.pic.command_read()
        } else if port == 0x21 {
            self.pic.mask
        } else if 0x40 <= port <= 0x42 {
            count_read(self.pit.counter((port - 0x40) as u8))
        } else if port == 0x60 {
            self.ppi.port_a
        } else if port == 0x61 {
            self.ppi.port_b
        } else if port == 0x62 {
            self.ppi.port_c
        } else if port == 0x320 {
            (self.fixed_disk.bcd_drive * 32) as u8
        } else if port == 0x321 {
            status_of(self.fixed_disk)
        } else {
            self.graphics.status()
        }
    }

    /// The board as it comes up: every chip reset, the DIP switches set for
    /// a monochrome display, one floppy drive, 256 KiB and a coprocessor.
    pub fn init() -> (r: IBM_XT)
        ensures
            r.wf(),
            r.dma == crate::dma::fresh_dma(),
            r.pit.c0 == crate::pit::fresh_counter(0) && r.pit.c1 == crate::pit::fresh_counter(1)
                && r.pit.c2 == crate::pit::fresh_counter(2),
            r.ppi == (PPI { port_a: 0, port_b: 0, port_c: 0 }),
            r.graphics == crate::graphics::fresh_graphics(),
            r.pic == (PIC { mask: 0, in_service: 0, base: 8, expecting: 0, needs_mode_word: false, read_in_service: false }),
            r.fixed_disk == crate::fixed_disk::fresh_disk(),
            !r.enable_nmi && !r.enable_speaker && !r.enable_keyboard,
            !r.dip_long_post && r.dip_coprocessor_installed,
            r.dip_board_ram == BoardRam::K256,
            r.dip_display == DisplaySwitch::Monochrome80x25,
            r.dip_floppies == Floppies::N1,
    {
        IBM_XT {
            dma: DMA::init(),
            pit: PIT::init(),
            ppi: PPI::init(),
            graphics: Graphics::init(),
            pic: PIC::init(),
            fixed_disk: FixedDisk::init(),
            enable_nmi: false,
            enable_speaker: false,
            enable_keyboard: false,
            dip_long_post: false,
            dip_coprocessor_installed: true,
            dip_board_ram: BoardRam::K256,
            dip_display: DisplaySwitch::Monochrome80x25,
            dip_floppies: Floppies::N1,
        }
    }

    /// A PPI port B write: bit 0 gates the speaker timer, bit 1 drives the
    /// speaker, bit 6 enables the keyboard, bit 2 picks the DIP bank shown on
    /// port C, and bit 7 clears the keyboard data on port A.
    pub fn ppi_port_b(&mut self, value: u8)
        ensures
            *final(self) == old(self).after_port_b(value),
    {
        self.ppi.write_port_b(value);
        let speaker_timer = value & 1 == 1;
        let speaker = value & 2 == 2;
        self.enable_speaker = speaker_timer && speaker;
        self.enable_keyboard = value & 0x40 == 0x40;
        let gate: u8 = if speaker_timer { 0x20 } else { 0 };
        let bank: u8 = if value & 0b100 == 0b100 {
            let d: u8 = match self.dip_display {
                DisplaySwitch::Absent => 0,
                DisplaySwitch::Color40x25 => 1,
                DisplaySwitch::Color80x25 => 2,
                DisplaySwitch::Monochrome80x25 => 3,
            };
            let f: u8 = match self.dip_floppies {
                Floppies::N1 => 0,
                Floppies::N2 => 1,
                Floppies::N3 => 2,
                Floppies::N4 => 3,
            };
            d + 4 * f
        } else {
            let r: u8 = match self.dip_board_ram {
                BoardRam::K64 => 0,
                BoardRam::K128 => 1,
                BoardRam::K192 => 2,
                BoardRam::K256 => 3,
            };
            (if self.dip_long_post { 1u8 } else { 0 }) + (if self.dip_coprocessor_installed { 2u8 } else { 0 }) + 4 * r
        };
        self.ppi.write_port_c(gate + bank);
        if value & 0x80 == 0x80 {
            self.ppi.write_port_a(0);
        }
    }

    /// Timer counter `select_counter` reached zero in interrupt mode; only
    /// counter 0 is wired to the interrupt controller, as IRQ 0. The result
    /// is the vector to deliver, if any.
    pub fn timer_interrupt(&mut self, select_counter: u8) -> (r: Option<u8>)
        requires
            old(self).wf(),
        ensures
            final(self).wf(),
            select_counter != 0 ==> r is None && *final(self) == *old(self),
            select_counter == 0 ==> r == old(self).pic.raise_vector(0) && *final(self) == (IBM_XT {
                pic: old(self).pic.after_raise(0),
                ..*old(self)
            }),
    {
        if select_counter == 0 {
            self.pic.interrupt_irq0()
        } else {
            None
        }
    }

    /// The disk controller completed a command: IRQ 5. The result is the
    /// vector to deliver, if any.
    pub fn fixed_disk_interrupt(&mut self) -> (r: Option<u8>)
        requires
            old(self).wf(),
        ensures
            final(self).wf(),
            r == old(self).pic.raise_vector(5),
            *final(self) == (IBM_XT { pic: old(self).pic.after_raise(5), ..*old(self) }),
    {
        self.pic.interrupt_irq5()
    }

    /// A tick of timer counter `i` is due: the counter ticks, and an
    /// interrupt it raises goes to the interrupt controller. The result says
    /// whether another tick is due and which vector, if any, to deliver.
    pub fn timer_tick(&mut self, i: u8) -> (r: (Tick, Option<u8>))
        requires
            old(self).wf(),
            i < 3,
        ensures
            final(self).wf(),
            ({
                let c = old(self).pit.counter(i);
                let fire = c.enabled && !tick_of(c).enabled;
                let pit = old(self).pit.with_counter(i, tick_of(c));
                &&& r.0.interrupt == fire
                &&& r.0.reschedule == (c.enabled && tick_of(c).enabled)
                &&& fire && i == 0 ==> r.1 == old(self).pic.raise_vector(0) && *final(self) == (IBM_XT {
                    pit,
                    pic: old(self).pic.after_raise(0),
                    ..*old(self)
                })
                &&& !(fire && i == 0) ==> r.1 is None && *final(self) == (IBM_XT { pit, ..*old(self) })
            }),
    {
        let t = self.pit.tick(i);
        if t.interrupt {
            let v = self.timer_interrupt(i);
            (t, v)
        } else {
            (t, None)
        }
    }

    /// The disk completion is due: the controller reports it and IRQ 5 goes
    /// to the interrupt controller. The result is the vector, if any.
    pub fn disk_completed(&mut self) -> (r: Option<u8>)
        requires
            old(self).wf(),
        ensures
            final(self).wf(),
            r == old(self).pic.raise_vector(5),
            *final(self) == (IBM_XT {
                fixed_disk: FixedDisk { interrupted: true, ..old(self).fixed_disk },
                pic: old(self).pic.after_raise(5),
                ..*old(self)
            }),
    {
        self.fixed_disk.completed();
        self.fixed_disk_interrupt()
    }

    /// Whether the board routes byte writes to `port` and can carry out
    /// `value` there (see `out_accepted`).
    pub fn accepts_out(&self, port: u16, value: u8) -> (r: bool)
        ensures
            r == self.out_accepted(port, value),
    {
        let routed = port <= 0x08 || (0x0A <= port && port <= 0x0F) || port == 0x20 || port == 0x21 || (0x40
            <= port && port <= 0x43) || (0x60 <= port && port <= 0x63) || port == 0x83 || port == 0xA0 || port
            == 0x210 || (0x320 <= port && port <= 0x323) || port == 0x327 || port == 0x32B || port == 0x32F
            || port == 0x3B4 || port == 0x3B5 || port == 0x3B8 || port == 0x3B9 || port == 0x3D4 || port
            == 0x3D5 || port == 0x3D8 || port == 0x3D9;
        routed && (port != 0x43 || PIT::control_word_ok(value)) && (port != 0x320
            || self.fixed_disk.accepts(value))
    }

    /// Whether the board routes byte reads from `port`.
    pub fn accepts_in(port: u16) -> (r: bool)
        ensures
            r == routes_in(port),
    {
        port <= 0x08 || port == 0x20 || port == 0x21 || (0x40 <= port && port <= 0x42) || (0x60 <= port
            && port <= 0x62) || port == 0x210 || port == 0x320 || port == 0x321 || port == 0x3BA
    }

    /// A byte write to an I/O port, routed to its chip (see `after_out` and
    /// `out_event`). The write must be one the board can carry out (see
    /// `accepts_out`).
    pub fn out_byte(&mut self, port: u16, value: u8) -> (r: Event)
        requires
            old(self).wf(),
            old(self).out_accepted(port, value),
        ensures
            final(self).wf(),
            *final(self) == old(self).after_out(port, value),
            r == old(self).out_event(port, value),
    {
        if port < 0x10 {
            self.out_dma(port, value)
        } else if port <= 0xA0 {
            self.out_low(port, value)
        } else {
            self.out_high(port, value)
        }
    }

    fn out_dma(&mut self, port: u16, value: u8) -> (r: Event)
        requires
            old(self).wf(),
            old(self).out_accepted(port, value),
            port < 0x10,
        ensures
            final(self).wf(),
            *final(self) == old(self).after_out(port, value),
            r == old(self).out_event(port, value),
    {
        proof {
            reveal(IBM_XT::after_out);
            reveal(IBM_XT::out_event);
        }
        if port < 8 {
            let i = (port / 2) as u8;
            if port % 2 == 0 {
                self.dma.set_address(i, value);
            } else {
                self.dma.set_count(i, value);
            }
        } else if port == 0x08 {
            self.dma.set_status(value);
        } else if port == 0x0A {
            self.dma.set_mask(value);
        } else if port == 0x0B {
            self.dma.set_mode(value);
        } else if port == 0x0C {
            self.dma.reset_flip_flop();
        } else if port == 0x0D {
            self.dma.reset_master();
        } else if port == 0x0E {
            self.dma.reset_mask();
        } else {
            self.dma.set_masks(value);
        }
        Event::Nothing
    }

    fn out_low(&mut self, port: u16, value: u8) -> (r: Event)
        requires
            old(self).wf(),
            old(self).out_accepted(port, value),
            0x10 <= port <= 0xA0,
        ensures
            final(self).wf(),
            *final(self) == old(self).after_out(port, value),
            r == old(self).out_event(port, value),
    {
        proof {
            reveal(IBM_XT::after_out);
            reveal(IBM_XT::out_event);
        }
        match port {
            0x20 => self.pic.out_port_1(value),
            0x21 => self.pic.out_port_2(value),
            0x40 | 0x41 | 0x42 => {
                let i = (port - 0x40) as u8;
                if self.pit.set_count(i, value) {
                    return Event::StartTimer(i);
                }
            },
            0x43 => self.pit.set_control_word(value),
            0x60 => self.ppi.write_port_a(value),
            0x61 => self.ppi_port_b(value),
            0x62 => self.ppi.write_port_c(value),
            0x63 => self.ppi.set_configuration(value),
            0xA0 => self.enable_nmi = value & 0x80 == 0x80,
            _ => {},
        }
        Event::Nothing
    }

    fn out_high(&mut self, port: u16, value: u8) -> (r: Event)
        requires
            old(self).wf(),
            old(self).out_accepted(port, value),
            port > 0xA0,
        ensures
            final(self).wf(),
            *final(self) == old(self).after_out(port, value),
            r == old(self).out_event(port, value),
    {
        proof {
            reveal(IBM_XT::after_out);
            reveal(IBM_XT::out_event);
        }
        match port {
            0x320 => {
                if self.fixed_disk.send_command(value) {
                    return Event::DiskCommand;
                }
            },
            0x321 => self.fixed_disk.reset(value),
            0x322 => self.fixed_disk.pulse(value),
            0x323 => self.fixed_disk.set_dma_and_interrupt(value),
            0x3B4 | 0x3D4 => self.graphics.choose_register(value),
            0x3B5 | 0x3D5 => self.graphics.set_register_data(value),
            0x3B8 => {
                if self.graphics.set_mode_bw(value) {
                    return Event::StartSync;
                }
            },
            0x3D8 => {
                if self.graphics.set_mode_color(value) {
                    return Event::StartSync;
                }
            },
            _ => {},
        }
        Event::Nothing
    }

    /// A byte read from an I/O port, routed to its chip (see `after_in` and
    /// `in_result`). The port must be routed (see `accepts_in`).
    pub fn in_byte(&mut self, port: u16) -> (r: u8)
        requires
            old(self).wf(),
            routes_in(port),
        ensures
            final(self).wf(),
            *final(self) == old(self).after_in(port),
            r == old(self).in_result(port),
    {
        if port < 8 {
            let i = (port / 2) as u8;
            if port % 2 == 0 {
                return self.dma.get_address(i);
            } else {
                return self.dma.get_count(i);
            }
        }
        match port {
            0x08 => self.dma.get_status(),
            0x20 => self.pic.in_port_1(),
            0x21 => self.pic.get_irqs_enabled(),
            0x40 | 0x41 | 0x42 => self.pit.get_count((port - 0x40) as u8),
            0x60 => self.ppi.read_port_a(),
            0x61 => self.ppi.read_port_b(),
            0x62 => self.ppi.read_port_c(),
            0x210 => 0,
            0x320 => self.fixed_disk.read_status(),
            0x321 => self.fixed_disk.status_register(),
            _ => self.graphics.get_status(),
        }
    }
}

} // verus!
