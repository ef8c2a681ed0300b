//! The fixed-disk controller: a six-byte Data Control Block written through
//! the data port after a select pulse, completed 10 ms later with IRQ 5.
use vstd::prelude::*;

verus! {

/// Simulated milliseconds from the last DCB byte to completion.
pub const COMMAND_MILLIS: u64 = 10;

#[derive(Clone, Copy, Debug, PartialEq, Eq, Structural)]
pub struct FixedDisk {
    pub enable_dma: bool,
    pub enable_int: bool,
    pub busy: bool,
    pub pulsed: bool,
    pub mode: bool,
    pub request: bool,
    pub interrupted: bool,
    /// How many bytes of the current block have come.
    pub bcd_count: u8,
    pub bcd_command: u8,
    pub bcd_drive: u8,
    pub bcd_head: u8,
    pub bcd_sector: u8,
    pub bcd_cylinder: u16,
    pub bcd_control: u8,
    pub bcd_microseconds_per_step: u16,
    pub bcd_disable_retry: bool,
    pub bcd_dont_retry_read: bool,
}

/// The command opcodes the controller knows.
pub open spec fn known_command(c: u8) -> bool {
    c <= 0x1 || (0x3 <= c <= 0x8) || (0xA <= c <= 0xF) || c == 0xE0 || (0xE3 <= c <= 0xE6)
}

/// The step time that the low three bits of the control byte select, if not
/// reserved.
pub open spec fn step_micros(value: u8) -> Option<u16> {
    let s = value % 8;
    if s == 0 || s == 6 || s == 7 {
        Some(3000)
    } else if s == 4 {
        Some(200)
    } else if s == 5 {
        Some(70)
    } else {
        None
    }
}

/// The controller after power-on: every flag clear and an empty block.
pub open spec fn fresh_disk() -> FixedDisk {
    FixedDisk {
        enable_dma: false,
        enable_int: false,
        busy: false,
        pulsed: false,
        mode: false,
        request: false,
        interrupted: false,
        bcd_count: 0,
        bcd_command: 0,
        bcd_drive: 0,
        bcd_head: 0,
        bcd_sector: 0,
        bcd_cylinder: 0,
        bcd_control: 0,
        bcd_microseconds_per_step: 0,
        bcd_disable_retry: false,
        bcd_dont_retry_read: false,
    }
}

/// The controller after a data byte `value` of the block: the field of its
/// position is written and the count moves on; every other field is kept.
/// A byte past the sixth, or a control byte with a reserved step rate,
/// changes nothing.
#[verifier::opaque]
pub open spec fn dcb_written(o: FixedDisk, value: u8) -> FixedDisk {
    let n = o.bcd_count;
    let o1 = FixedDisk { bcd_count: (n + 1) as u8, ..o };
    if n == 0 {
        FixedDisk { bcd_command: value, ..o1 }
    } else if n == 1 {
        FixedDisk { bcd_drive: value / 32, bcd_head: value % 32, ..o1 }
    } else if n == 2 {
        FixedDisk { bcd_sector: value % 64, bcd_cylinder: ((value / 64) * 256) as u16, ..o1 }
    } else if n == 3 {
        FixedDisk { bcd_cylinder: o.bcd_cylinder | value as u16, ..o1 }
    } else if n == 4 {
        FixedDisk { bcd_control: value, ..o1 }
    } else if n == 5 {
        match step_micros(value) {
            Some(us) => FixedDisk {
                bcd_microseconds_per_step: us,
                bcd_disable_retry: value & 0x80 == 0x80,
                bcd_dont_retry_read: value & 0x40 == 0x40,
                ..o1
            },
            None => o,
        }
    } else {
        o
    }
}

/// Whether the controller can take `value` as the next data byte. A byte
/// past the sixth, a reserved step rate in the control byte, or a reserved
/// command opcode at the end of the block is fatal, so the caller tests
/// this first (see `accepts`).
pub open spec fn dcb_accepts(o: FixedDisk, value: u8) -> bool {
    o.bcd_count < 5 || (o.bcd_count == 5 && step_micros(value) is Some && known_command(o.bcd_command))
}

/// The controller after a reset (port 0x321).
#[verifier::opaque]
pub open spec fn after_reset(o: FixedDisk) -> FixedDisk {
    FixedDisk { request: false, mode: false, pulsed: false, busy: false, interrupted: false, bcd_count: 0, ..o }
}

/// The controller after a select pulse (port 0x322).
#[verifier::opaque]
pub open spec fn after_pulse(o: FixedDisk) -> FixedDisk {
    FixedDisk { request: true, mode: false, pulsed: true, busy: true, interrupted: false, bcd_count: 0, ..o }
}

/// The controller after a write to the DMA and interrupt mask (port 0x323).
#[verifier::opaque]
pub open spec fn after_dma_and_interrupt(o: FixedDisk, value: u8) -> FixedDisk {
    FixedDisk { enable_dma: value & 0b1 == 0b1, enable_int: value & 0b10 == 0b10, ..o }
}

/// The status register (port 0x321 read).
pub open spec fn status_of(o: FixedDisk) -> u8 {
    ((if o.request { 1u8 } else { 0 }) + (if o.mode { 2u8 } else { 0 }) + (if o.pulsed { 4u8 } else { 0 }) + (
    if o.busy { 8u8 } else { 0 }) + (if o.interrupted { 32u8 } else { 0 })) as u8
}

/// After a select pulse, six data bytes whose first is a known command and
/// whose last gives a valid step rate are all accepted; only the sixth
/// completes the block (its completion is then due), and the controller then
/// holds that command.
pub proof fn lemma_block_completes(d: FixedDisk, b: Seq<u8>)
    requires
        b.len() == 6,
        known_command(b[0]),
        step_micros(b[5]) is Some,
    ensures
        ({
            let d0 = after_pulse(d);
            let d1 = dcb_written(d0, b[0]);
            let d2 = dcb_written(d1, b[1]);
            let d3 = dcb_written(d2, b[2]);
            let d4 = dcb_written(d3, b[3]);
            let d5 = dcb_written(d4, b[4]);
            &&& dcb_accepts(d0, b[0]) && d0.bcd_count != 5
            &&& dcb_accepts(d1, b[1]) && d1.bcd_count != 5
            &&& dcb_accepts(d2, b[2]) && d2.bcd_count != 5
            &&& dcb_accepts(d3, b[3]) && d3.bcd_count != 5
            &&& dcb_accepts(d4, b[4]) && d4.bcd_count != 5
            &&& dcb_accepts(d5, b[5]) && d5.bcd_count == 5
            &&& dcb_written(d5, b[5]).bcd_command == b[0]
            &&& dcb_written(d5, b[5]).bcd_count == 6
        }),
{
    reveal(after_pulse);
    reveal(dcb_written);
}

fn is_known_command(c: u8) -> (r: bool)
    ensures
        r == known_command(c),
{
    c <= 0x1 || (0x3 <= c && c <= 0x8) || (0xA <= c && c <= 0xF) || c == 0xE0 || (0xE3 <= c && c
        <= 0xE6)
}

impl FixedDisk {
    pub fn init() -> (r: FixedDisk)
        ensures
            r == fresh_disk(),
    {
        FixedDisk {
            enable_dma: false,
            enable_int: false,
            busy: false,
            pulsed: false,
            mode: false,
            request: false,
            interrupted: false,
            bcd_count: 0,
            bcd_command: 0,
            bcd_drive: 0,
            bcd_head: 0,
            bcd_sector: 0,
            bcd_cylinder: 0,
            bcd_control: 0,
            bcd_microseconds_per_step: 0,
            bcd_disable_retry: false,
            bcd_dont_retry_read: false,
        }
    }

    /// Port 0x320 read: the drive number in bits 7:5.
    pub fn read_status(&self) -> (r: u8)
        requires
            self.bcd_drive < 8,
        ensures
            r == self.bcd_drive * 32,
    {
        self.bcd_drive * 32
    }

    /// Whether `value` can be the next data byte (see `dcb_accepts`).
    pub fn accepts(&self, value: u8) -> (r: bool)
        ensures
            r == dcb_accepts(*self, value),
    {
        if self.bcd_count < 5 {
            true
        } else if self.bcd_count == 5 {
            let s = value % 8;
            (s == 0 || s >= 4) && is_known_command(self.bcd_command)
        } else {
            false
        }
    }

    /// Port 0x320 write: the next byte of the block. Byte 0 is the command,
    /// 1 drive and head, 2 cylinder high bits and sector, 3 cylinder low,
    /// 4 block count, 5 control. After the sixth byte the result is true:
    /// the command runs, and its completion is due `COMMAND_MILLIS` from now.
    pub fn send_command(&mut self, value: u8) -> (r: bool)
        requires
            old(self).bcd_drive < 8,
            dcb_accepts(*old(self), value),
        ensures
            final(self).bcd_drive < 8,
            *final(self) == dcb_written(*old(self), value),
            r == (old(self).bcd_count == 5),
    {
        proof {
            reveal(dcb_written);
        }
        if self.bcd_count == 0 {
            self.bcd_command = value;
        } else if self.bcd_count == 1 {
            self.bcd_drive = value / 32;
            self.bcd_head = value % 32;
        } else if self.bcd_count == 2 {
            self.bcd_sector = value % 64;
            self.bcd_cylinder = (value / 64) as u16 * 256;
        } else if self.bcd_count == 3 {
            self.bcd_cylinder = self.bcd_cylinder | value as u16;
        } else if self.bcd_count == 4 {
            self.bcd_control = value;
        } else {
            let s = value % 8;
            self.bcd_microseconds_per_step = if s == 4 {
                200
            } else if s == 5 {
                70
            } else {
                3000
            };
            self.bcd_disable_retry = value & 0b1000_0000 == 0b1000_0000;
            self.bcd_dont_retry_read = value & 0b100_0000 == 0b100_0000;
        }
        self.bcd_count = self.bcd_count + 1;
        self.bcd_count == 6
    }

    /// The command has completed: the controller reports an interrupt, and
    /// the board raises IRQ 5.
    pub fn completed(&mut self)
        ensures
            *final(self) == (FixedDisk { interrupted: true, ..*old(self) }),
    {
        self.interrupted = true;
    }

    /// Port 0x321 write: controller reset.
    pub fn reset(&mut self, value: u8)
        ensures
            *final(self) == after_reset(*old(self)),
            final(self).bcd_drive == old(self).bcd_drive,
    {
        proof {
            reveal(after_reset);
        }
        self.request = false;
        self.mode = false;
        self.pulsed = false;
        self.busy = false;
        self.interrupted = false;
        self.bcd_count = 0;
    }

    /// Port 0x321 read: bit 0 request, 1 mode, 2 pulsed, 3 busy,
    /// 5 interrupt.
    pub fn status_register(&self) -> (r: u8)
        ensures
            r == status_of(*self),
    {
        let mut result: u8 = 0;
        if self.request {
            result = result + 1;
        }
        if self.mode {
            result = result + 2;
        }
        if self.pulsed {
            result = result + 4;
        }
        if self.busy {
            result = result + 8;
        }
        if self.interrupted {
            result = result + 32;
        }
        result
    }

    /// Port 0x322 write: the select pulse that opens a new block.
    pub fn pulse(&mut self, value: u8)
        ensures
            *final(self) == after_pulse(*old(self)),
            final(self).bcd_drive == old(self).bcd_drive,
    {
        proof {
            reveal(after_pulse);
        }
        self.request = true;
        self.mode = false;
        self.pulsed = true;
        self.busy = true;
        self.interrupted = false;
        self.bcd_count = 0;
    }

    /// Port 0x323 write: bit 0 enables DMA, bit 1 interrupts.
    pub fn set_dma_and_interrupt(&mut self, value: u8)
        ensures
            *final(self) == after_dma_and_interrupt(*old(self), value),
            final(self).bcd_drive == old(self).bcd_drive,
    {
        proof {
            reveal(after_dma_and_interrupt);
        }
        self.enable_dma = value & 0b1 == 0b1;
        self.enable_int = value & 0b10 == 0b10;
    }
}

} // verus!
