//! The 8255 peripheral interface: three data ports whose writes the board
//! interprets.
use vstd::prelude::*;

verus! {

#[derive(Clone, Copy, Debug, PartialEq, Eq, Structural)]
pub struct PPI {
    pub port_a: u8,
    pub port_b: u8,
    pub port_c: u8,
}

impl PPI {
    pub fn init() -> (r: PPI)
        ensures
            r == (PPI { port_a: 0, port_b: 0, port_c: 0 }),
    {
        PPI { port_a: 0, port_b: 0, port_c: 0 }
    }

    /// The configuration byte picks port directions and modes, which the
    /// emulation does not need: it is accepted and has no effect.
    pub fn set_configuration(&mut self, value: u8)
        ensures
            *final(self) == *old(self),
    {
    }

    pub fn write_port_a(&mut self, value: u8)
        ensures
            *final(self) == (PPI { port_a: value, ..*old(self) }),
    {
        self.port_a = value;
    }

    pub fn write_port_b(&mut self, value: u8)
        ensures
            *final(self) == (PPI { port_b: value, ..*old(self) }),
    {
        self.port_b = value;
    }

    pub fn write_port_c(&mut self, value: u8)
        ensures
            *final(self) == (PPI { port_c: value, ..*old(self) }),
    {
        self.port_c = value;
    }

    pub fn read_port_a(&self) -> (r: u8)
        ensures
            r == self.port_a,
    {
        self.port_a
    }

    pub fn read_port_b(&self) -> (r: u8)
        ensures
            r == self.port_b,
    {
        self.port_b
    }

    pub fn read_port_c(&self) -> (r: u8)
        ensures
            r == self.port_c,
    {
        self.port_c
    }
}

} // verus!
