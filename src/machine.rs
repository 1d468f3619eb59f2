//! The machine: a CPU and its bus, with the accessors a debugger uses.
use vstd::prelude::*;

use crate::bus::{Bus, BusModel, LoadError, MEMORY_SIZE, MemorySegment, rom_image, segments_of};
use crate::cpu::{UnknownOpcode, Z80, outcome};
use crate::internal_state::{InternalState, ReportState};
use crate::model::{Z80State, next_cycles, step};
use crate::slot::{Slot, SlotKind, SlotModel, SlotType};
use crate::utils::{copy_vec, dump_lines, hexdump};
use crate::vdp::{TMS9918, VRAM_SIZE};

verus! {

/// Number of scanlines the display counts through.
pub const SCANLINES: u16 = 192;

/// The computer: CPU, bus and debugger settings.
#[derive(Debug)]
pub struct Msx {
    pub cpu: Z80,
    pub current_scanline: u16,
    pub breakpoints: Vec<u16>,
    pub max_cycles: Option<u64>,
    pub open_msx: bool,
    pub break_on_mismatch: bool,
    pub track_flags: bool,
}

impl Default for Msx {
    /// A machine over four empty slots.
    fn default() -> (r: Self)
        ensures
            r.wf(),
            r.cpu@ == Z80::power_on(r.cpu@.bus),
            r.current_scanline == 0,
            r.breakpoints@.len() == 0,
    {
        Msx::with_cpu(Z80::new(Bus::default()))
    }
}

impl ReportState for Msx {
    fn report_state(&mut self) -> InternalState {
        self.internal_state()
    }
}

impl Msx {
    pub open spec fn wf(&self) -> bool {
        self.cpu.wf() && self.current_scanline < SCANLINES
    }

    fn with_cpu(cpu: Z80) -> (r: Self)
        requires
            cpu.wf(),
        ensures
            r.wf(),
            r.cpu@ == cpu@,
            r.current_scanline == 0,
            r.breakpoints@.len() == 0,
            r.max_cycles is None,
            !r.open_msx,
            !r.break_on_mismatch,
            !r.track_flags,
    {
        Msx {
            cpu,
            current_scanline: 0,
            breakpoints: Vec::new(),
            max_cycles: None,
            open_msx: false,
            break_on_mismatch: false,
            track_flags: false,
        }
    }

    /// A machine whose four slots are copies of the first four of `slots`.
    pub fn new(slots: &[SlotType]) -> (r: Self)
        requires
            slots@.len() >= 4,
        ensures
            r.wf(),
            r.cpu@ == Z80::power_on(r.cpu@.bus),
            r.cpu@.bus.slot0 == slots@[0].model(),
            r.cpu@.bus.slot1 == slots@[1].model(),
            r.cpu@.bus.slot2 == slots@[2].model(),
            r.cpu@.bus.slot3 == slots@[3].model(),
            r.cpu@.bus.ppi.primary_slot_config == 0,
            r.current_scanline == 0,
            r.breakpoints@.len() == 0,
    {
        Msx::with_cpu(Z80::new(Bus::new(slots)))
    }

    /// Puts a ROM image in slot `slot` (see `Bus::load_rom`).
    pub fn load_rom(&mut self, slot: u8, data: &[u8]) -> (r: Result<(), LoadError>)
        requires
            old(self).wf(),
        ensures
            final(self).wf(),
            r is Ok <==> slot < 4 && data@.len() <= MEMORY_SIZE,
            slot >= 4 ==> r == Err::<(), LoadError>(LoadError::SlotOutOfRange),
            slot < 4 && data@.len() > MEMORY_SIZE ==> r == Err::<(), LoadError>(
                LoadError::RomTooLarge,
            ),
            r is Err ==> final(self).cpu@ == old(self).cpu@,
            r is Ok ==> final(self).cpu@ == (Z80State {
                bus: old(self).cpu@.bus.with_slot(
                    slot,
                    SlotModel { kind: SlotKind::Rom, base: 0, data: rom_image(data@) },
                ),
                ..old(self).cpu@
            }),
    {
        self.cpu.bus.load_rom(slot, data)
    }

    /// Puts fresh RAM in slot `slot` (see `Bus::load_ram`).
    pub fn load_ram(&mut self, slot: u8) -> (r: Result<(), LoadError>)
        requires
            old(self).wf(),
        ensures
            final(self).wf(),
            slot >= 4 ==> r == Err::<(), LoadError>(LoadError::SlotOutOfRange)
                && final(self).cpu@ == old(self).cpu@,
            slot < 4 ==> r is Ok && final(self).cpu@ == (Z80State {
                bus: old(self).cpu@.bus.with_slot(
                    slot,
                    SlotModel {
                        kind: SlotKind::Ram,
                        base: 0,
                        data: Seq::new(MEMORY_SIZE as nat, |i: int| 0xFFu8),
                    },
                ),
                ..old(self).cpu@
            }),
    {
        self.cpu.bus.load_ram(slot)
    }

    /// Empties slot `slot`.
    pub fn load_empty(&mut self, slot: u8) -> (r: Result<(), LoadError>)
        requires
            old(self).wf(),
        ensures
            final(self).wf(),
            slot >= 4 ==> r == Err::<(), LoadError>(LoadError::SlotOutOfRange)
                && final(self).cpu@ == old(self).cpu@,
            slot < 4 ==> r is Ok && final(self).cpu@ == (Z80State {
                bus: old(self).cpu@.bus.with_slot(slot, SlotModel::empty()),
                ..old(self).cpu@
            }),
    {
        self.cpu.bus.load_empty(slot)
    }

    /// A copy of the video processor.
    pub fn get_vdp(&self) -> (r: TMS9918)
        ensures
            r@ == self.cpu@.bus.vdp,
    {
        self.cpu.bus.vdp.snapshot()
    }

    /// A copy of the video processor.
    pub fn vdp(&self) -> (r: TMS9918)
        ensures
            r@ == self.cpu@.bus.vdp,
    {
        self.cpu.bus.vdp.snapshot()
    }

    pub fn mem_size(&self) -> (r: usize)
        ensures
            r == MEMORY_SIZE,
    {
        MEMORY_SIZE
    }

    /// The address space as the CPU sees it.
    pub fn ram(&self) -> (r: Vec<u8>)
        ensures
            r@.len() == MEMORY_SIZE,
            forall|i: int| 0 <= i < MEMORY_SIZE ==> r@[i] == self.cpu@.bus.mem(i as u16),
    {
        self.cpu.memory()
    }

    /// The address space as the CPU sees it.
    pub fn memory(&self) -> (r: Vec<u8>)
        ensures
            r@.len() == MEMORY_SIZE,
            forall|i: int| 0 <= i < MEMORY_SIZE ==> r@[i] == self.cpu@.bus.mem(i as u16),
    {
        self.cpu.memory()
    }

    /// A copy of video memory.
    pub fn vram(&self) -> (r: Vec<u8>)
        ensures
            r@ == self.cpu@.bus.vdp.vram,
    {
        copy_vec(&self.cpu.bus.vdp.vram)
    }

    pub fn pc(&self) -> (r: u16)
        ensures
            r == self.cpu.pc,
    {
        self.cpu.pc
    }

    pub fn halted(&self) -> (r: bool)
        ensures
            r == self.cpu.halted,
    {
        self.cpu.halted
    }

    pub fn set_a(&mut self, value: u8)
        ensures
            final(self).cpu@ == old(self).cpu@.with_a(value),
            final(self).current_scanline == old(self).current_scanline,
    {
        self.cpu.a = value;
    }

    pub fn set_b(&mut self, value: u8)
        ensures
            final(self).cpu@ == (Z80State { b: value, ..old(self).cpu@ }),
            final(self).current_scanline == old(self).current_scanline,
    {
        self.cpu.b = value;
    }

    pub fn set_c(&mut self, value: u8)
        ensures
            final(self).cpu@ == (Z80State { c: value, ..old(self).cpu@ }),
            final(self).current_scanline == old(self).current_scanline,
    {
        self.cpu.c = value;
    }

    pub fn set_hl(&mut self, value: u16)
        ensures
            final(self).cpu@ == old(self).cpu@.with_hl(value),
            final(self).current_scanline == old(self).current_scanline,
    {
        self.cpu.set_hl(value);
    }

    /// Stores the word `value` at the address in HL.
    pub fn set_hl_address(&mut self, value: u16)
        ensures
            final(self).cpu@ == old(self).cpu@.write_word(old(self).cpu@.hl(), value),
            final(self).current_scanline == old(self).current_scanline,
    {
        let hl = self.cpu.get_hl();
        self.cpu.write_word(hl, value);
    }

    /// A memory write, through the current slot mapping.
    pub fn set_memory(&mut self, address: u16, value: u8)
        ensures
            final(self).cpu@ == old(self).cpu@.write_mem(address, value),
            final(self).current_scanline == old(self).current_scanline,
    {
        self.cpu.write_byte(address, value);
    }

    /// A memory read, through the current slot mapping; the VDP is not touched.
    pub fn get_memory(&self, address: u16) -> (r: u8)
        ensures
            r == self.cpu@.bus.mem(address),
    {
        self.cpu.read_byte(address)
    }

    pub fn add_breakpoint(&mut self, address: u16)
        ensures
            final(self).breakpoints@ == old(self).breakpoints@.push(address),
            final(self).cpu@ == old(self).cpu@,
            final(self).current_scanline == old(self).current_scanline,
    {
        self.breakpoints.push(address);
    }

    /// Resets the CPU and the bus devices.
    pub fn reset(&mut self)
        requires
            old(self).wf(),
        ensures
            final(self).cpu@ == Z80::after_reset(old(self).cpu@),
            final(self).wf(),
    {
        self.cpu.reset();
    }

    /// Runs one CPU step and moves to the next scanline.
    pub fn step(&mut self) -> (r: Result<(), UnknownOpcode>)
        requires
            old(self).wf(),
        ensures
            final(self).wf(),
            outcome(
                r,
                Z80State { cycles: next_cycles(old(self).cpu.cycles), ..old(self).cpu@ },
                final(self).cpu@,
                step(old(self).cpu@),
            ),
            final(self).current_scanline == (old(self).current_scanline + 1) % 192,
    {
        let r = self.cpu.execute_cycle();
        self.current_scanline = (self.current_scanline + 1) % SCANLINES;
        r
    }

    pub fn primary_slot_config(&self) -> (r: u8)
        ensures
            r == self.cpu@.bus.ppi.primary_slot_config,
    {
        self.cpu.bus.primary_slot_config()
    }

    pub fn memory_segments(&self) -> (r: Vec<MemorySegment>)
        ensures
            segments_of(r@, self.cpu@.bus.ppi.primary_slot_config),
    {
        self.cpu.bus.memory_segments()
    }

    /// Whether the PPI was written since the last call; clears the flag.
    pub fn wrote_to_ppi(&mut self) -> (r: bool)
        requires
            old(self).wf(),
        ensures
            r == old(self).cpu@.bus.ppi_written,
            final(self).cpu@ == (Z80State {
                bus: BusModel { ppi_written: false, ..old(self).cpu@.bus },
                ..old(self).cpu@
            }),
            final(self).wf(),
    {
        self.cpu.bus.wrote_to_ppi()
    }

    /// Hex dump of the address space from `start` while below `end`.
    pub fn memory_dump(&mut self, start: u16, end: u16) -> (r: String)
        ensures
            ({
                let mem = Seq::new(MEMORY_SIZE as nat, |i: int| old(self).cpu@.bus.mem(i as u16));
                r@ == dump_lines(mem, start as int, end as int).map_values(|b: u8| b as char)
            }),
            final(self).cpu@ == old(self).cpu@,
    {
        let memory = self.cpu.memory();
        assert(memory@ =~= Seq::new(MEMORY_SIZE as nat, |i: int| self.cpu@.bus.mem(i as u16)));
        hexdump(memory.as_slice(), start, end)
    }

    /// Hex dump of all of video memory.
    pub fn vram_dump(&self) -> (r: String)
        requires
            self.wf(),
        ensures
            r@ == dump_lines(self.cpu@.bus.vdp.vram, 0, VRAM_SIZE - 1).map_values(|b: u8| b as char),
    {
        hexdump(self.cpu.bus.vdp.vram.as_slice(), 0, (VRAM_SIZE - 1) as u16)
    }

    /// The register snapshot, with the byte at HL and the opcode at PC.
    pub fn internal_state(&self) -> (r: InternalState)
        ensures
            r == (InternalState {
                a: self.cpu.a,
                f: self.cpu.f,
                b: self.cpu.b,
                c: self.cpu.c,
                d: self.cpu.d,
                e: self.cpu.e,
                h: self.cpu.h,
                l: self.cpu.l,
                sp: self.cpu.sp,
                pc: self.cpu.pc,
                hl: self.cpu@.hl(),
                hl_contents: self.cpu@.bus.mem(self.cpu@.hl()),
                opcode: self.cpu@.bus.mem(self.cpu.pc),
            }),
    {
        let hl = self.cpu.get_hl();
        InternalState {
            a: self.cpu.a,
            f: self.cpu.f,
            b: self.cpu.b,
            c: self.cpu.c,
            d: self.cpu.d,
            e: self.cpu.e,
            h: self.cpu.h,
            l: self.cpu.l,
            sp: self.cpu.sp,
            pc: self.cpu.pc,
            hl,
            hl_contents: self.cpu.read_byte(hl),
            opcode: self.cpu.read_byte(self.cpu.pc),
        }
    }
}

} // verus!
