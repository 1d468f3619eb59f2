//! A snapshot of the registers that an external comparator reads.
use vstd::prelude::*;

verus! {

/// Register snapshot, with the byte at HL and the opcode at PC.
#[derive(Debug, Clone, Copy, PartialEq, Eq, Structural)]
pub struct InternalState {
    pub a: u8,
    pub f: u8,
    pub b: u8,
    pub c: u8,
    pub d: u8,
    pub e: u8,
    pub h: u8,
    pub l: u8,
    pub sp: u16,
    pub pc: u16,
    pub hl: u16,
    pub hl_contents: u8,
    pub opcode: u8,
}

/// Something that can report an `InternalState`.
pub trait ReportState {
    fn report_state(&mut self) -> InternalState;
}

} // verus!
