//! The programmable sound generator, modelled as its register bank.
use vstd::prelude::*;

verus! {

/// Number of PSG registers.
pub const PSG_REGISTERS: usize = 16;

/// Sound generator: sixteen registers and a register pointer.
#[derive(Debug)]
pub struct AY38910 {
    pub registers: Vec<u8>,
    pub selected: u8,
}

/// Mathematical model of the sound generator.
pub struct PsgModel {
    pub registers: Seq<u8>,
    pub selected: u8,
}

impl View for AY38910 {
    type V = PsgModel;

    open spec fn view(&self) -> PsgModel {
        PsgModel { registers: self.registers@, selected: self.selected }
    }
}

impl PsgModel {
    pub open spec fn wf(self) -> bool {
        self.registers.len() == PSG_REGISTERS && self.selected < 16
    }

    pub open spec fn cleared() -> PsgModel {
        PsgModel { registers: Seq::new(16, |i: int| 0u8), selected: 0 }
    }

    /// What a read of either port returns: the selected register.
    pub open spec fn port_value(self) -> u8 {
        self.registers[self.selected as int]
    }

    /// The generator after `data` is written to `port`.
    pub open spec fn written(self, port: u8, data: u8) -> PsgModel {
        if port == 0xA0 {
            PsgModel { selected: data & 0x0F, ..self }
        } else if port == 0xA1 {
            PsgModel { registers: self.registers.update(self.selected as int, data), ..self }
        } else {
            self
        }
    }
}

/// Sixteen zero bytes.
fn zeroed_registers() -> (r: Vec<u8>)
    ensures
        r@ == Seq::new(16, |i: int| 0u8),
{
    let mut r: Vec<u8> = Vec::new();
    let mut i: usize = 0;
    while i < PSG_REGISTERS
        invariant
            i <= 16,
            r@ == Seq::new(i as nat, |j: int| 0u8),
        decreases 16 - i,
    {
        r.push(0);
        i = i + 1;
        assert(r@ =~= Seq::new(i as nat, |j: int| 0u8));
    }
    r
}

impl AY38910 {
    pub fn new() -> (r: Self)
        ensures
            r@ == PsgModel::cleared(),
    {
        AY38910 { registers: zeroed_registers(), selected: 0 }
    }

    pub fn reset(&mut self)
        ensures
            final(self)@ == PsgModel::cleared(),
    {
        self.registers = zeroed_registers();
        self.selected = 0;
    }

    pub fn read(&self, port: u8) -> (r: u8)
        requires
            self@.wf(),
        ensures
            r == self@.port_value(),
    {
        self.registers[self.selected as usize]
    }

    pub fn write(&mut self, port: u8, data: u8)
        requires
            old(self)@.wf(),
        ensures
            final(self)@ == old(self)@.written(port, data),
            final(self)@.wf(),
    {
        if port == 0xA0 {
            self.selected = data & 0x0F;
            assert(data & 0x0F < 16) by (bit_vector);
        } else if port == 0xA1 {
            self.registers.set(self.selected as usize, data);
        }
    }
}

} // verus!
