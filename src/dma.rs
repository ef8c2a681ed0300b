//! The 8237 DMA controller, modelled at register level: four channels whose
//! 16-bit address and count registers are written and read a byte at a time
//! through a flip-flop.
use vstd::prelude::*;

verus! {

/// Which half of a 16-bit channel register the next byte access touches.
#[derive(Clone, Copy, Debug, PartialEq, Eq, Structural)]
pub enum FlipFlop {
    Low,
    High,
}

#[derive(Clone, Copy, Debug, PartialEq, Eq, Structural)]
pub enum TransferType {
    SelfTest,
    WriteToMemory,
    ReadFromMemory,
}

#[derive(Clone, Copy, Debug, PartialEq, Eq, Structural)]
pub enum TransferMode {
    OnDemand,
    SingleDMA,
    BlockDMA,
    Cascade,
}

#[derive(Clone, Copy, Debug, PartialEq, Eq, Structural)]
pub struct Channel {
    pub mask: bool,
    pub address: u16,
    pub count: u16,
    pub flip_flop: FlipFlop,
    pub transfer_type: TransferType,
    pub transfer_mode: TransferMode,
}

#[derive(Clone, Copy, Debug, PartialEq, Eq, Structural)]
pub struct DMA {
    pub enabled: bool,
    pub channel_0: Channel,
    pub channel_1: Channel,
    pub channel_2: Channel,
    pub channel_3: Channel,
}

/// A 16-bit register after a byte write through the flip-flop: the low byte
/// alone (the high byte cleared) when it is low, the high byte over the kept
/// low byte when it is high.
pub open spec fn written_half(old_value: u16, ff: FlipFlop, byte: u8) -> u16 {
    match ff {
        FlipFlop::Low => byte as u16,
        FlipFlop::High => (old_value % 256 + byte * 256) as u16,
    }
}

/// The byte of a 16-bit register that a read through the flip-flop returns.
pub open spec fn read_half(value: u16, ff: FlipFlop) -> u8 {
    match ff {
        FlipFlop::Low => (value % 256) as u8,
        FlipFlop::High => (value / 256) as u8,
    }
}

pub open spec fn toggled(ff: FlipFlop) -> FlipFlop {
    match ff {
        FlipFlop::Low => FlipFlop::High,
        FlipFlop::High => FlipFlop::Low,
    }
}

/// The transfer type that bits 3:2 of a mode byte select; the reserved
/// value 3 selects the self test.
pub open spec fn type_of_mode(register: u8) -> TransferType {
    let t = (register / 4) % 4;
    if t == 1 {
        TransferType::WriteToMemory
    } else if t == 2 {
        TransferType::ReadFromMemory
    } else {
        TransferType::SelfTest
    }
}

/// The transfer mode that bits 7:6 of a mode byte select.
pub open spec fn mode_of_mode(register: u8) -> TransferMode {
    let m = register / 64;
    if m == 0 {
        TransferMode::OnDemand
    } else if m == 1 {
        TransferMode::SingleDMA
    } else if m == 2 {
        TransferMode::BlockDMA
    } else {
        TransferMode::Cascade
    }
}

/// A channel after power-on: unmasked, registers zero, flip-flop low.
pub open spec fn fresh_channel() -> Channel {
    Channel {
        mask: false,
        address: 0,
        count: 0,
        flip_flop: FlipFlop::Low,
        transfer_type: TransferType::SelfTest,
        transfer_mode: TransferMode::SingleDMA,
    }
}

/// The controller after power-on.
pub open spec fn fresh_dma() -> DMA {
    DMA {
        enabled: false,
        channel_0: fresh_channel(),
        channel_1: fresh_channel(),
        channel_2: fresh_channel(),
        channel_3: fresh_channel(),
    }
}

impl Channel {
    pub fn new() -> (r: Channel)
        ensures
            r == fresh_channel(),
    {
        Channel {
            mask: false,
            address: 0,
            count: 0,
            flip_flop: FlipFlop::Low,
            transfer_type: TransferType::SelfTest,
            transfer_mode: TransferMode::SingleDMA,
        }
    }
}

impl DMA {
    /// The controller after a byte write to channel `i`'s address.
    #[verifier::opaque]
    pub open spec fn after_address(self, i: u8, v: u8) -> DMA {
        let c = self.channel(i);
        self.with_channel(i, Channel { address: written_half(c.address, c.flip_flop, v), flip_flop: toggled(c.flip_flop), ..c })
    }

    /// The controller after a byte write to channel `i`'s count.
    #[verifier::opaque]
    pub open spec fn after_count(self, i: u8, v: u8) -> DMA {
        let c = self.channel(i);
        self.with_channel(i, Channel { count: written_half(c.count, c.flip_flop, v), flip_flop: toggled(c.flip_flop), ..c })
    }

    /// The controller after a byte read of channel `i`'s address or count:
    /// only the flip-flop toggles.
    #[verifier::opaque]
    pub open spec fn after_read(self, i: u8) -> DMA {
        let c = self.channel(i);
        self.with_channel(i, Channel { flip_flop: toggled(c.flip_flop), ..c })
    }

    /// The controller after a command register write.
    #[verifier::opaque]
    pub open spec fn after_status(self, v: u8) -> DMA {
        DMA { enabled: v & 0b100 == 0b100, ..self }
    }

    /// The controller after a master reset: flip-flops low, masks on.
    #[verifier::opaque]
    pub open spec fn after_master_reset(self) -> DMA {
        DMA {
            channel_0: Channel { mask: true, flip_flop: FlipFlop::Low, ..self.channel_0 },
            channel_1: Channel { mask: true, flip_flop: FlipFlop::Low, ..self.channel_1 },
            channel_2: Channel { mask: true, flip_flop: FlipFlop::Low, ..self.channel_2 },
            channel_3: Channel { mask: true, flip_flop: FlipFlop::Low, ..self.channel_3 },
            ..self
        }
    }

    /// The controller after a flip-flop reset.
    #[verifier::opaque]
    pub open spec fn after_flip_flop_reset(self) -> DMA {
        DMA {
            channel_0: Channel { flip_flop: FlipFlop::Low, ..self.channel_0 },
            channel_1: Channel { flip_flop: FlipFlop::Low, ..self.channel_1 },
            channel_2: Channel { flip_flop: FlipFlop::Low, ..self.channel_2 },
            channel_3: Channel { flip_flop: FlipFlop::Low, ..self.channel_3 },
            ..self
        }
    }

    /// The controller after a mask reset: every mask off.
    #[verifier::opaque]
    pub open spec fn after_mask_reset(self) -> DMA {
        DMA {
            channel_0: Channel { mask: false, ..self.channel_0 },
            channel_1: Channel { mask: false, ..self.channel_1 },
            channel_2: Channel { mask: false, ..self.channel_2 },
            channel_3: Channel { mask: false, ..self.channel_3 },
            ..self
        }
    }

    /// The controller after all four masks are written.
    #[verifier::opaque]
    pub open spec fn after_masks(self, v: u8) -> DMA {
        DMA {
            channel_0: Channel { mask: v & 0b1 == 0b1, ..self.channel_0 },
            channel_1: Channel { mask: v & 0b10 == 0b10, ..self.channel_1 },
            channel_2: Channel { mask: v & 0b100 == 0b100, ..self.channel_2 },
            channel_3: Channel { mask: v & 0b1000 == 0b1000, ..self.channel_3 },
            ..self
        }
    }

    /// The controller after a single mask write.
    #[verifier::opaque]
    pub open spec fn after_mask(self, v: u8) -> DMA {
        let i = v % 4;
        self.with_channel(i, Channel { mask: v & 0b100 == 0b100, ..self.channel(i) })
    }

    /// The controller after a mode register write.
    #[verifier::opaque]
    pub open spec fn after_mode(self, v: u8) -> DMA {
        let i = v % 4;
        self.with_channel(i, Channel { transfer_type: type_of_mode(v), transfer_mode: mode_of_mode(v), ..self.channel(i) })
    }

    /// Channel `i`.
    pub open spec fn channel(self, i: u8) -> Channel {
        if i == 0 {
            self.channel_0
        } else if i == 1 {
            self.channel_1
        } else if i == 2 {
            self.channel_2
        } else {
            self.channel_3
        }
    }

    /// The controller with channel `i` replaced.
    pub open spec fn with_channel(self, i: u8, c: Channel) -> DMA {
        if i == 0 {
            DMA { channel_0: c, ..self }
        } else if i == 1 {
            DMA { channel_1: c, ..self }
        } else if i == 2 {
            DMA { channel_2: c, ..self }
        } else {
            DMA { channel_3: c, ..self }
        }
    }

    pub fn init() -> (r: DMA)
        ensures
            r == fresh_dma(),
    {
        DMA {
            enabled: false,
            channel_0: Channel::new(),
            channel_1: Channel::new(),
            channel_2: Channel::new(),
            channel_3: Channel::new(),
        }
    }

    /// The command register: bit 2 enables the controller.
    pub fn set_status(&mut self, register: u8)
        ensures
            *final(self) == old(self).after_status(register),
    {
        proof {
            reveal(DMA::after_status);
        }
        self.enabled = register & 0b100 == 0b100;
    }

    /// The status register, which always reads zero here.
    pub fn get_status(&self) -> (r: u8)
        ensures
            r == 0,
    {
        0
    }

    fn get_channel(&mut self, channel_index: u8) -> (c: &mut Channel)
        requires
            channel_index < 4,
        ensures
            *c == old(self).channel(channel_index),
            *final(self) == old(self).with_channel(channel_index, *final(c)),
    {
        if channel_index == 0 {
            &mut self.channel_0
        } else if channel_index == 1 {
            &mut self.channel_1
        } else if channel_index == 2 {
            &mut self.channel_2
        } else {
            &mut self.channel_3
        }
    }

    /// Reads a byte of channel `i`'s count and toggles its flip-flop.
    pub fn get_count(&mut self, channel_index: u8) -> (r: u8)
        requires
            channel_index < 4,
        ensures
            r == read_half(old(self).channel(channel_index).count, old(self).channel(channel_index).flip_flop),
            *final(self) == old(self).after_read(channel_index),
    {
        proof {
            reveal(DMA::after_read);
        }
        let channel = self.get_channel(channel_index);
        match channel.flip_flop {
            FlipFlop::Low => {
                channel.flip_flop = FlipFlop::High;
                (channel.count % 256) as u8
            },
            FlipFlop::High => {
                channel.flip_flop = FlipFlop::Low;
                (channel.count / 256) as u8
            },
        }
    }

    /// Reads a byte of channel `i`'s address and toggles its flip-flop.
    pub fn get_address(&mut self, channel_index: u8) -> (r: u8)
        requires
            channel_index < 4,
        ensures
            r == read_half(old(self).channel(channel_index).address, old(self).channel(channel_index).flip_flop),
            *final(self) == old(self).after_read(channel_index),
    {
        proof {
            reveal(DMA::after_read);
        }
        let channel = self.get_channel(channel_index);
        match channel.flip_flop {
            FlipFlop::Low => {
                channel.flip_flop = FlipFlop::High;
                (channel.address % 256) as u8
            },
            FlipFlop::High => {
                channel.flip_flop = FlipFlop::Low;
                (channel.address / 256) as u8
            },
        }
    }

    /// Writes a byte of channel `i`'s address and toggles its flip-flop.
    pub fn set_address(&mut self, channel_index: u8, register: u8)
        requires
            channel_index < 4,
        ensures
            *final(self) == old(self).after_address(channel_index, register),
    {
        proof {
            reveal(DMA::after_address);
        }
        let channel = self.get_channel(channel_index);
        match channel.flip_flop {
            FlipFlop::Low => {
                channel.flip_flop = FlipFlop::High;
                channel.address = register as u16;
            },
            FlipFlop::High => {
                channel.flip_flop = FlipFlop::Low;
                channel.address = channel.address % 256 + register as u16 * 256;
            },
        }
    }

    /// Writes a byte of channel `i`'s count and toggles its flip-flop.
    pub fn set_count(&mut self, channel_index: u8, register: u8)
        requires
            channel_index < 4,
        ensures
            *final(self) == old(self).after_count(channel_index, register),
    {
        proof {
            reveal(DMA::after_count);
        }
        let channel = self.get_channel(channel_index);
        match channel.flip_flop {
            FlipFlop::Low => {
                channel.flip_flop = FlipFlop::High;
                channel.count = register as u16;
            },
            FlipFlop::High => {
                channel.flip_flop = FlipFlop::Low;
                channel.count = channel.count % 256 + register as u16 * 256;
            },
        }
    }

    /// Master reset: every flip-flop low and every mask on.
    pub fn reset_master(&mut self)
        ensures
            *final(self) == old(self).after_master_reset(),
    {
        proof {
            reveal(DMA::after_master_reset);
        }
        self.channel_0.mask = true;
        self.channel_0.flip_flop = FlipFlop::Low;
        self.channel_1.mask = true;
        self.channel_1.flip_flop = FlipFlop::Low;
        self.channel_2.mask = true;
        self.channel_2.flip_flop = FlipFlop::Low;
        self.channel_3.mask = true;
        self.channel_3.flip_flop = FlipFlop::Low;
    }

    /// Every flip-flop low.
    pub fn reset_flip_flop(&mut self)
        ensures
            *final(self) == old(self).after_flip_flop_reset(),
    {
        proof {
            reveal(DMA::after_flip_flop_reset);
        }
        self.channel_0.flip_flop = FlipFlop::Low;
        self.channel_1.flip_flop = FlipFlop::Low;
        self.channel_2.flip_flop = FlipFlop::Low;
        self.channel_3.flip_flop = FlipFlop::Low;
    }

    /// Every mask off.
    pub fn reset_mask(&mut self)
        ensures
            *final(self) == old(self).after_mask_reset(),
    {
        proof {
            reveal(DMA::after_mask_reset);
        }
        self.channel_0.mask = false;
        self.channel_1.mask = false;
        self.channel_2.mask = false;
        self.channel_3.mask = false;
    }

    /// All four masks at once: bit `i` masks channel `i`.
    pub fn set_masks(&mut self, register: u8)
        ensures
            *final(self) == old(self).after_masks(register),
    {
        proof {
            reveal(DMA::after_masks);
        }
        self.channel_0.mask = register & 0b1 == 0b1;
        self.channel_1.mask = register & 0b10 == 0b10;
        self.channel_2.mask = register & 0b100 == 0b100;
        self.channel_3.mask = register & 0b1000 == 0b1000;
    }

    /// One mask: bits 1:0 pick the channel, bit 2 is the mask.
    pub fn set_mask(&mut self, register: u8)
        ensures
            *final(self) == old(self).after_mask(register),
    {
        proof {
            reveal(DMA::after_mask);
        }
        let channel_index = register % 4;
        let channel = self.get_channel(channel_index);
        channel.mask = register & 0b100 == 0b100;
    }

    /// The mode register: bits 1:0 pick the channel, bits 3:2 the transfer
    /// type, bits 7:6 the transfer mode.
    pub fn set_mode(&mut self, register: u8)
        ensures
            *final(self) == old(self).after_mode(register),
    {
        proof {
            reveal(DMA::after_mode);
        }
        let channel_index = register % 4;
        let channel = self.get_channel(channel_index);
        let t = (register / 4) % 4;
        channel.transfer_type = if t == 1 {
            TransferType::WriteToMemory
        } else if t == 2 {
            TransferType::ReadFromMemory
        } else {
            TransferType::SelfTest
        };
        let m = register / 64;
        channel.transfer_mode = if m == 0 {
            TransferMode::OnDemand
        } else if m == 1 {
            TransferMode::SingleDMA
        } else if m == 2 {
            TransferMode::BlockDMA
        } else {
            TransferMode::Cascade
        };
    }
}

/// After a master reset, writing a low and then a high byte to a channel's
/// address register leaves it holding `high << 8 | low`.
pub proof fn lemma_address_after_reset(d: DMA, i: u8, low: u8, high: u8)
    requires
        i < 4,
        d.channel(i).flip_flop == FlipFlop::Low,
    ensures
        ({
            let c0 = d.channel(i);
            let c1 = Channel { address: written_half(c0.address, c0.flip_flop, low), flip_flop: toggled(c0.flip_flop), ..c0 };
            let c2 = Channel { address: written_half(c1.address, c1.flip_flop, high), flip_flop: toggled(c1.flip_flop), ..c1 };
            &&& c2.address == high * 256 + low
            &&& c2.flip_flop == FlipFlop::Low
        }),
{
}

} // verus!
