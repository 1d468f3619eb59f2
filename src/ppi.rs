//! The parallel interface: primary slot select and the keyboard latches.
use vstd::prelude::*;

verus! {

/// Programmable peripheral interface, as four plain port registers.
#[derive(Debug, Clone, Copy, PartialEq, Eq, Structural)]
pub struct Ppi {
    /// Port `0xA8`: for each 16 KiB page, two bits naming its slot.
    pub primary_slot_config: u8,
    /// Port `0xA9`: keyboard column input.
    pub port_b: u8,
    /// Port `0xAA`: keyboard row select and misc outputs.
    pub port_c: u8,
    /// Port `0xAB`: mode control.
    pub control: u8,
}

impl Ppi {
    pub fn new() -> (r: Self)
        ensures
            r == Ppi::cleared(),
    {
        Ppi { primary_slot_config: 0, port_b: 0, port_c: 0, control: 0 }
    }

    pub open spec fn cleared() -> Ppi {
        Ppi { primary_slot_config: 0, port_b: 0, port_c: 0, control: 0 }
    }

    pub fn reset(&mut self)
        ensures
            *final(self) == Ppi::cleared(),
    {
        *self = Ppi::new();
    }

    /// Value of a port register; `0xFF` for a port that is not the PPI's.
    pub open spec fn port_value(self, port: u8) -> u8 {
        if port == 0xA8 {
            self.primary_slot_config
        } else if port == 0xA9 {
            self.port_b
        } else if port == 0xAA {
            self.port_c
        } else if port == 0xAB {
            self.control
        } else {
            0xFF
        }
    }

    /// The PPI after `data` is written to `port`.
    pub open spec fn written(self, port: u8, data: u8) -> Ppi {
        if port == 0xA8 {
            Ppi { primary_slot_config: data, ..self }
        } else if port == 0xA9 {
            Ppi { port_b: data, ..self }
        } else if port == 0xAA {
            Ppi { port_c: data, ..self }
        } else if port == 0xAB {
            Ppi { control: data, ..self }
        } else {
            self
        }
    }

    pub fn read(&self, port: u8) -> (r: u8)
        ensures
            r == self.port_value(port),
    {
        match port {
            0xA8 => self.primary_slot_config,
            0xA9 => self.port_b,
            0xAA => self.port_c,
            0xAB => self.control,
            _ => 0xFF,
        }
    }

    pub fn write(&mut self, port: u8, data: u8)
        ensures
            *final(self) == old(self).written(port, data),
    {
        match port {
            0xA8 => self.primary_slot_config = data,
            0xA9 => self.port_b = data,
            0xAA => self.port_c = data,
            0xAB => self.control = data,
            _ => {},
        }
    }
}

} // verus!
