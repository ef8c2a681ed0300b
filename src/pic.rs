//! The 8259 interrupt controller in single, edge-triggered mode: a mask, the
//! requests in service, and the programmed base vector.
use vstd::prelude::*;

verus! {

#[derive(Clone, Copy, Debug, PartialEq, Eq, Structural)]
pub struct PIC {
    /// Bit n masks IRQ n.
    pub mask: u8,
    /// Bit n: IRQ n is being serviced.
    pub in_service: u8,
    /// The vector of IRQ 0; a multiple of eight.
    pub base: u8,
    /// The initialisation word expected next on the data port: 0 none,
    /// 2 the base vector, 4 the mode word.
    pub expecting: u8,
    /// Whether the initialisation asked for a mode word.
    pub needs_mode_word: bool,
    /// Whether a read of the command port returns the in-service register.
    pub read_in_service: bool,
}

/// The bit of IRQ `irq`.
pub open spec fn irq_bit(irq: u8) -> u8 {
    (1u8 << irq) as u8
}

/// The in-service register after ending the highest-priority (lowest
/// numbered) request: its lowest set bit cleared.
pub open spec fn end_highest(x: u8) -> u8 {
    if x == 0 {
        0
    } else {
        x & ((x - 1) as u8)
    }
}

impl PIC {
    /// The controller after a command port write (see `out_port_1`).
    #[verifier::opaque]
    pub open spec fn after_command(self, value: u8) -> PIC {
        if value & 0x10 != 0 {
            PIC { mask: 0, in_service: 0, expecting: 2, needs_mode_word: value & 1 != 0, read_in_service: false, ..self }
        } else if value & 0x08 == 0 {
            if value & 0x20 != 0 {
                PIC { in_service: end_highest(self.in_service), ..self }
            } else {
                self
            }
        } else {
            PIC { read_in_service: if value & 2 != 0 { value & 1 != 0 } else { self.read_in_service }, ..self }
        }
    }

    /// The controller after a data port write (see `out_port_2`).
    #[verifier::opaque]
    pub open spec fn after_data(self, value: u8) -> PIC {
        if self.expecting == 2 {
            PIC { base: (value - value % 8) as u8, expecting: if self.needs_mode_word { 4u8 } else { 0 }, ..self }
        } else if self.expecting == 4 {
            PIC { expecting: 0, ..self }
        } else {
            PIC { mask: value, ..self }
        }
    }

    /// What a command port read returns.
    pub open spec fn command_read(self) -> u8 {
        if self.read_in_service { self.in_service } else { 0 }
    }

    /// The controller after IRQ `irq` is raised, and the vector it gives.
    pub open spec fn after_raise(self, irq: u8) -> PIC {
        if self.mask & irq_bit(irq) != 0 { self } else { PIC { in_service: self.in_service | irq_bit(irq), ..self } }
    }

    pub open spec fn raise_vector(self, irq: u8) -> Option<u8> {
        if self.mask & irq_bit(irq) != 0 { None } else { Some((self.base + irq) as u8) }
    }

    pub open spec fn wf(self) -> bool {
        self.base % 8 == 0
    }

    pub fn init() -> (r: PIC)
        ensures
            r.wf(),
            r == (PIC { mask: 0, in_service: 0, base: 8, expecting: 0, needs_mode_word: false, read_in_service: false }),
    {
        PIC { mask: 0, in_service: 0, base: 8, expecting: 0, needs_mode_word: false, read_in_service: false }
    }

    /// The command port. Bit 4 set starts initialisation (bit 0 asks for a
    /// mode word); else with bit 3 clear, bit 5 is a non-specific end of
    /// interrupt, which ends the highest-priority request in service; else
    /// bits 1:0 equal to 3 make reads of this port return the in-service
    /// register, and 2 the (unmodelled, zero) request register.
    pub fn out_port_1(&mut self, value: u8)
        requires
            old(self).wf(),
        ensures
            final(self).wf(),
            *final(self) == old(self).after_command(value),
    {
        proof {
            reveal(PIC::after_command);
        }
        if value & 0x10 != 0 {
            self.mask = 0;
            self.in_service = 0;
            self.expecting = 2;
            self.needs_mode_word = value & 1 != 0;
            self.read_in_service = false;
        } else if value & 0x08 == 0 {
            if value & 0x20 != 0 {
                self.in_service = if self.in_service == 0 {
                    0
                } else {
                    self.in_service & (self.in_service - 1)
                };
            }
        } else {
            if value & 2 != 0 {
                self.read_in_service = value & 1 != 0;
            }
        }
    }

    /// The data port: the base vector or the mode word while initialising,
    /// the mask afterwards.
    pub fn out_port_2(&mut self, value: u8)
        requires
            old(self).wf(),
        ensures
            final(self).wf(),
            *final(self) == old(self).after_data(value),
    {
        proof {
            reveal(PIC::after_data);
        }
        if self.expecting == 2 {
            self.base = value - value % 8;
            self.expecting = if self.needs_mode_word { 4 } else { 0 };
        } else if self.expecting == 4 {
            self.expecting = 0;
        } else {
            self.mask = value;
        }
    }

    /// The command port read.
    pub fn in_port_1(&self) -> (r: u8)
        ensures
            r == self.command_read(),
    {
        if self.read_in_service {
            self.in_service
        } else {
            0
        }
    }

    /// The data port read: the mask.
    pub fn get_irqs_enabled(&self) -> (r: u8)
        ensures
            r == self.mask,
    {
        self.mask
    }

    /// A device raises IRQ `irq`: unless it is masked it goes in service and
    /// its vector, base plus `irq`, is returned for the CPU.
    pub fn raise(&mut self, irq: u8) -> (r: Option<u8>)
        requires
            old(self).wf(),
            irq < 8,
        ensures
            final(self).wf(),
            *final(self) == old(self).after_raise(irq),
            r == old(self).raise_vector(irq),
    {
        let bit: u8 = 1u8 << irq;
        if self.mask & bit != 0 {
            None
        } else {
            self.in_service = self.in_service | bit;
            proof {
                assert(self.base % 8 == 0 ==> self.base <= 248) by (nonlinear_arith);
            }
            Some(self.base + irq)
        }
    }

    /// IRQ 0, from the timer.
    pub fn interrupt_irq0(&mut self) -> (r: Option<u8>)
        requires
            old(self).wf(),
        ensures
            final(self).wf(),
            *final(self) == old(self).after_raise(0),
            r == old(self).raise_vector(0),
    {
        proof {
            assert(irq_bit(0) == 1) by (bit_vector);
        }
        self.raise(0)
    }

    /// IRQ 5, from the fixed disk.
    pub fn interrupt_irq5(&mut self) -> (r: Option<u8>)
        requires
            old(self).wf(),
        ensures
            final(self).wf(),
            *final(self) == old(self).after_raise(5),
            r == old(self).raise_vector(5),
    {
        proof {
            assert(irq_bit(5) == 0x20) by (bit_vector);
        }
        self.raise(5)
    }
}

} // verus!
