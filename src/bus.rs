//! The bus: paged memory over four slots, and port dispatch to the devices.
use vstd::prelude::*;

use crate::ppi::Ppi;
use crate::slot::{EmptySlot, RamSlot, RomSlot, Slot, SlotModel, SlotType};
use crate::sound::{AY38910, PsgModel};
use crate::utils::{add16, wrap16};
use crate::vdp::{TMS9918, VdpModel};

verus! {

/// Size of the CPU address space.
pub const MEMORY_SIZE: usize = 0x10000;

/// Number of slots on the bus.
pub const SLOT_COUNT: u8 = 4;

/// The 16 KiB page that holds `address`.
pub open spec fn page_of(address: u16) -> u8 {
    (address / 0x4000) as u8
}

/// The slot that the primary slot byte `config` selects for `page`.
pub open spec fn slot_for_page(page: u8, config: u8) -> u8 {
    if page == 0 {
        config % 4
    } else if page == 1 {
        (config / 4) % 4
    } else if page == 2 {
        (config / 16) % 4
    } else {
        config / 64
    }
}

/// The slot that answers for `address` under the primary slot byte `config`.
pub open spec fn slot_for(address: u16, config: u8) -> u8 {
    slot_for_page(page_of(address), config)
}

/// The image that a ROM load puts in a slot: the bytes, then `0xFF`.
pub open spec fn rom_image(rom: Seq<u8>) -> Seq<u8> {
    Seq::new(MEMORY_SIZE as nat, |i: int| if i < rom.len() { rom[i] } else { 0xFF })
}

/// Mathematical model of the bus.
pub struct BusModel {
    pub slot0: SlotModel,
    pub slot1: SlotModel,
    pub slot2: SlotModel,
    pub slot3: SlotModel,
    pub vdp: VdpModel,
    pub psg: PsgModel,
    pub ppi: Ppi,
    /// Set by a write to a PPI port, cleared when it is reported.
    pub ppi_written: bool,
}

impl BusModel {
    pub open spec fn wf(self) -> bool {
        self.vdp.wf() && self.psg.wf()
    }

    pub open spec fn slot(self, i: u8) -> SlotModel {
        if i == 0 {
            self.slot0
        } else if i == 1 {
            self.slot1
        } else if i == 2 {
            self.slot2
        } else {
            self.slot3
        }
    }

    pub open spec fn with_slot(self, i: u8, s: SlotModel) -> BusModel {
        if i == 0 {
            BusModel { slot0: s, ..self }
        } else if i == 1 {
            BusModel { slot1: s, ..self }
        } else if i == 2 {
            BusModel { slot2: s, ..self }
        } else {
            BusModel { slot3: s, ..self }
        }
    }

    /// The slot that answers for `address` now.
    pub open spec fn slot_index(self, address: u16) -> u8 {
        slot_for(address, self.ppi.primary_slot_config)
    }

    /// The byte that a CPU read of `address` returns.
    pub open spec fn mem(self, address: u16) -> u8 {
        self.slot(self.slot_index(address)).read(address)
    }

    /// The bus after a CPU write of `value` to `address`.
    pub open spec fn write(self, address: u16, value: u8) -> BusModel {
        let i = self.slot_index(address);
        self.with_slot(i, self.slot(i).write(address, value))
    }

    /// The little-endian word at `address`; the second byte wraps to 0.
    pub open spec fn word(self, address: u16) -> u16 {
        (self.mem(address) + 256 * self.mem(wrap16(address + 1))) as u16
    }

    /// The bus after a little-endian word write.
    pub open spec fn write_word(self, address: u16, value: u16) -> BusModel {
        self.write(address, (value % 256) as u8).write(wrap16(address + 1), (value / 256) as u8)
    }

    /// An I/O read of `port`: the bus afterwards and the byte returned.
    pub open spec fn input(self, port: u8) -> (BusModel, u8) {
        if port == 0x98 || port == 0x99 {
            let (v, d) = self.vdp.port_read(port);
            (BusModel { vdp: v, ..self }, d)
        } else if port == 0xA0 || port == 0xA1 {
            (self, self.psg.port_value())
        } else if 0xA8 <= port <= 0xAB {
            (self, self.ppi.port_value(port))
        } else {
            (self, 0xFF)
        }
    }

    /// The bus after an I/O write of `data` to `port`.
    pub open spec fn output(self, port: u8, data: u8) -> BusModel {
        if port == 0x98 || port == 0x99 {
            BusModel { vdp: self.vdp.port_write(port, data), ..self }
        } else if port == 0xA0 || port == 0xA1 {
            BusModel { psg: self.psg.written(port, data), ..self }
        } else if 0xA8 <= port <= 0xAB {
            BusModel { ppi: self.ppi.written(port, data), ppi_written: true, ..self }
        } else {
            self
        }
    }

    /// The bus after a reset: devices cleared, slots kept.
    pub open spec fn reset(self) -> BusModel {
        BusModel {
            vdp: VdpModel::cleared(self.vdp.display_mode),
            psg: PsgModel::cleared(),
            ppi: Ppi::cleared(),
            ppi_written: false,
            ..self
        }
    }
}

/// A run of contiguous 16 KiB pages mapped to the same slot.
#[derive(Debug, Clone, Copy, PartialEq, Eq, Structural)]
pub struct MemorySegment {
    pub start: u16,
    pub end: u16,
    pub slot: u8,
}

/// Why a slot could not be loaded.
#[derive(Debug, Clone, Copy, PartialEq, Eq, Structural)]
pub enum LoadError {
    /// The slot index is not below four.
    SlotOutOfRange,
    /// The image is larger than the 64 KiB address space.
    RomTooLarge,
}

/// The memory and I/O bus.
#[derive(Debug)]
pub struct Bus {
    pub vdp: TMS9918,
    pub psg: AY38910,
    pub ppi: Ppi,
    pub slot0: SlotType,
    pub slot1: SlotType,
    pub slot2: SlotType,
    pub slot3: SlotType,
    pub ppi_written: bool,
}

impl View for Bus {
    type V = BusModel;

    open spec fn view(&self) -> BusModel {
        BusModel {
            slot0: self.slot0.model(),
            slot1: self.slot1.model(),
            slot2: self.slot2.model(),
            slot3: self.slot3.model(),
            vdp: self.vdp@,
            psg: self.psg@,
            ppi: self.ppi,
            ppi_written: self.ppi_written,
        }
    }
}

impl Default for Bus {
    /// A bus with four empty slots.
    fn default() -> (r: Self)
        ensures
            r@.wf(),
            r@.slot0 == SlotModel::empty(),
            r@.slot1 == SlotModel::empty(),
            r@.slot2 == SlotModel::empty(),
            r@.slot3 == SlotModel::empty(),
            r@.vdp == VdpModel::cleared(crate::vdp::DisplayMode::Text1),
            r@.psg == PsgModel::cleared(),
            r@.ppi == Ppi::cleared(),
            !r@.ppi_written,
    {
        Bus {
            vdp: TMS9918::new(),
            psg: AY38910::new(),
            ppi: Ppi::new(),
            slot0: SlotType::Empty(EmptySlot::new()),
            slot1: SlotType::Empty(EmptySlot::new()),
            slot2: SlotType::Empty(EmptySlot::new()),
            slot3: SlotType::Empty(EmptySlot::new()),
            ppi_written: false,
        }
    }
}

impl Bus {
    /// A bus over copies of the first four of `slots`, devices cleared.
    pub fn new(slots: &[SlotType]) -> (r: Self)
        requires
            slots@.len() >= 4,
        ensures
            r@.wf(),
            r@.slot0 == slots@[0].model(),
            r@.slot1 == slots@[1].model(),
            r@.slot2 == slots@[2].model(),
            r@.slot3 == slots@[3].model(),
            r@.vdp == VdpModel::cleared(crate::vdp::DisplayMode::Text1),
            r@.psg == PsgModel::cleared(),
            r@.ppi == Ppi::cleared(),
            !r@.ppi_written,
    {
        Bus {
            vdp: TMS9918::new(),
            psg: AY38910::new(),
            ppi: Ppi::new(),
            slot0: slots[0].duplicate(),
            slot1: slots[1].duplicate(),
            slot2: slots[2].duplicate(),
            slot3: slots[3].duplicate(),
            ppi_written: false,
        }
    }

    /// Size of the CPU address space.
    pub fn mem_size(&self) -> (r: usize)
        ensures
            r == MEMORY_SIZE,
    {
        MEMORY_SIZE
    }

    /// Resets the devices; the slots keep their contents.
    pub fn reset(&mut self)
        ensures
            final(self)@ == old(self)@.reset(),
            final(self)@.wf(),
    {
        self.vdp.reset();
        self.psg.reset();
        self.ppi.reset();
        self.ppi_written = false;
    }

    /// An I/O read from `port`.
    pub fn input(&mut self, port: u8) -> (r: u8)
        requires
            old(self)@.wf(),
        ensures
            (final(self)@, r) == old(self)@.input(port),
            final(self)@.wf(),
    {
        match port {
            0x98 | 0x99 => self.vdp.read(port),
            0xA0 | 0xA1 => self.psg.read(port),
            0xA8 | 0xA9 | 0xAA | 0xAB => self.ppi.read(port),
            _ => 0xFF,
        }
    }

    /// An I/O write of `data` to `port`.
    pub fn output(&mut self, port: u8, data: u8)
        requires
            old(self)@.wf(),
        ensures
            final(self)@ == old(self)@.output(port, data),
            final(self)@.wf(),
    {
        match port {
            0x98 | 0x99 => self.vdp.write(port, data),
            0xA0 | 0xA1 => self.psg.write(port, data),
            0xA8 | 0xA9 | 0xAA | 0xAB => {
                self.ppi.write(port, data);
                self.ppi_written = true;
            },
            _ => {},
        }
    }

    /// The slot that answers for `addr` under the current slot selection.
    fn get_slot_number_for_address(&self, addr: u16) -> (r: u8)
        ensures
            r == self@.slot_index(addr),
            r < 4,
    {
        self.page_slot((addr / 0x4000) as u8)
    }

    pub fn read_byte(&self, addr: u16) -> (r: u8)
        ensures
            r == self@.mem(addr),
    {
        match self.get_slot_number_for_address(addr) {
            0 => self.slot0.read(addr),
            1 => self.slot1.read(addr),
            2 => self.slot2.read(addr),
            _ => self.slot3.read(addr),
        }
    }

    pub fn write_byte(&mut self, addr: u16, data: u8)
        ensures
            final(self)@ == old(self)@.write(addr, data),
    {
        match self.get_slot_number_for_address(addr) {
            0 => self.slot0.write(addr, data),
            1 => self.slot1.write(addr, data),
            2 => self.slot2.write(addr, data),
            _ => self.slot3.write(addr, data),
        }
    }

    pub fn write_word(&mut self, address: u16, value: u16)
        ensures
            final(self)@ == old(self)@.write_word(address, value),
    {
        self.write_byte(address, (value % 256) as u8);
        self.write_byte(add16(address, 1), (value / 256) as u8);
    }

    pub fn read_word(&self, address: u16) -> (r: u16)
        ensures
            r == self@.word(address),
    {
        let low_byte = self.read_byte(address) as u16;
        let high_byte = self.read_byte(add16(address, 1)) as u16;
        low_byte + 256 * high_byte
    }

    /// The primary slot select byte.
    pub fn primary_slot_config(&self) -> (r: u8)
        ensures
            r == self@.ppi.primary_slot_config,
    {
        self.ppi.primary_slot_config
    }

    /// Whether a PPI port was written since the last call; clears the flag.
    pub fn wrote_to_ppi(&mut self) -> (r: bool)
        ensures
            r == old(self)@.ppi_written,
            final(self)@ == (BusModel { ppi_written: false, ..old(self)@ }),
    {
        let r = self.ppi_written;
        self.ppi_written = false;
        r
    }

    fn set_slot(&mut self, slot: u8, s: SlotType)
        requires
            slot < 4,
        ensures
            final(self)@ == old(self)@.with_slot(slot, s.model()),
    {
        match slot {
            0 => self.slot0 = s,
            1 => self.slot1 = s,
            2 => self.slot2 = s,
            _ => self.slot3 = s,
        }
    }

    /// Puts a 64 KiB ROM holding `data` (then `0xFF`) in slot `slot`.
    pub fn load_rom(&mut self, slot: u8, data: &[u8]) -> (r: Result<(), LoadError>)
        ensures
            slot >= 4 ==> r == Err::<(), LoadError>(LoadError::SlotOutOfRange),
            slot < 4 && data@.len() > MEMORY_SIZE ==> r == Err::<(), LoadError>(
                LoadError::RomTooLarge,
            ),
            r is Err ==> final(self)@ == old(self)@,
            r is Ok <==> slot < 4 && data@.len() <= MEMORY_SIZE,
            r is Ok ==> final(self)@ == old(self)@.with_slot(
                slot,
                SlotModel { kind: crate::slot::SlotKind::Rom, base: 0, data: rom_image(data@) },
            ),
    {
        if slot >= SLOT_COUNT {
            return Err(LoadError::SlotOutOfRange);
        }
        if data.len() > MEMORY_SIZE {
            return Err(LoadError::RomTooLarge);
        }
        let rom = RomSlot::new(data, 0, MEMORY_SIZE as u32);
        assert(rom.data@ =~= rom_image(data@));
        self.set_slot(slot, SlotType::Rom(rom));
        Ok(())
    }

    /// Puts 64 KiB of RAM, every byte `0xFF`, in slot `slot`.
    pub fn load_ram(&mut self, slot: u8) -> (r: Result<(), LoadError>)
        ensures
            slot >= 4 ==> r == Err::<(), LoadError>(LoadError::SlotOutOfRange)
                && final(self)@ == old(self)@,
            slot < 4 ==> r is Ok && final(self)@ == old(self)@.with_slot(
                slot,
                SlotModel {
                    kind: crate::slot::SlotKind::Ram,
                    base: 0,
                    data: Seq::new(MEMORY_SIZE as nat, |i: int| 0xFFu8),
                },
            ),
    {
        if slot >= SLOT_COUNT {
            return Err(LoadError::SlotOutOfRange);
        }
        let ram = RamSlot::new(0, MEMORY_SIZE as u32);
        assert(ram.data@ =~= Seq::new(MEMORY_SIZE as nat, |i: int| 0xFFu8));
        self.set_slot(slot, SlotType::Ram(ram));
        Ok(())
    }

    /// Empties slot `slot`.
    pub fn load_empty(&mut self, slot: u8) -> (r: Result<(), LoadError>)
        ensures
            slot >= 4 ==> r == Err::<(), LoadError>(LoadError::SlotOutOfRange)
                && final(self)@ == old(self)@,
            slot < 4 ==> r is Ok && final(self)@ == old(self)@.with_slot(slot, SlotModel::empty()),
    {
        if slot >= SLOT_COUNT {
            return Err(LoadError::SlotOutOfRange);
        }
        self.set_slot(slot, SlotType::Empty(EmptySlot::new()));
        Ok(())
    }

    /// The slot that the primary slot byte selects for `page`.
    pub fn page_slot(&self, page: u8) -> (r: u8)
        requires
            page < 4,
        ensures
            r == slot_for_page(page, self@.ppi.primary_slot_config),
            r < 4,
    {
        let config = self.ppi.primary_slot_config;
        match page {
            0 => config % 4,
            1 => (config / 4) % 4,
            2 => (config / 16) % 4,
            _ => config / 64,
        }
    }

    /// The name of the variant in slot `slot`.
    pub fn slot_name(&self, slot: u8) -> &'static str {
        match slot {
            0 => self.slot0.name(),
            1 => self.slot1.name(),
            2 => self.slot2.name(),
            _ => self.slot3.name(),
        }
    }

    /// The maximal runs of contiguous pages that map to one slot, in order.
    pub fn memory_segments(&self) -> (r: Vec<MemorySegment>)
        ensures
            segments_of(r@, self@.ppi.primary_slot_config),
    {
        let mut r: Vec<MemorySegment> = Vec::new();
        let mut first: u8 = 0;
        let mut slot = self.page_slot(0);
        let mut page: u8 = 1;
        while page < 4
            invariant
                1 <= page <= 4,
                first < page,
                slot == slot_for_page(first, self@.ppi.primary_slot_config),
                forall|p: u8|
                    first <= p < page ==> #[trigger] slot_for_page(p, self@.ppi.primary_slot_config)
                        == slot,
                segments_until(r@, first, self@.ppi.primary_slot_config),
            decreases 4 - page,
        {
            let s = self.page_slot(page);
            if s != slot {
                r.push(segment(first, page - 1, slot));
                first = page;
                slot = s;
            }
            page = page + 1;
        }
        r.push(segment(first, 3, slot));
        r
    }
}

/// The segment from the start of page `first` to the end of page `last`.
fn segment(first: u8, last: u8, slot: u8) -> (r: MemorySegment)
    requires
        first <= last < 4,
    ensures
        r == (MemorySegment {
            start: (first * 0x4000) as u16,
            end: (last * 0x4000 + 0x3FFF) as u16,
            slot,
        }),
{
    MemorySegment {
        start: first as u16 * 0x4000,
        end: last as u16 * 0x4000 + 0x3FFF,
        slot,
    }
}

/// `s` describes pages `s.start / 0x4000` to `s.end / 0x4000`, all of one slot.
pub open spec fn segment_holds(s: MemorySegment, config: u8) -> bool {
    &&& s.start % 0x4000 == 0
    &&& s.end % 0x4000 == 0x3FFF
    &&& s.start < s.end
    &&& forall|p: u8|
        s.start / 0x4000 <= p <= s.end / 0x4000 ==> #[trigger] slot_for_page(p, config) == s.slot
}

/// `segs` cover pages `0..first` in order, each maximal towards its left
/// neighbour.
pub open spec fn segments_until(segs: Seq<MemorySegment>, first: u8, config: u8) -> bool {
    &&& forall|i: int| 0 <= i < segs.len() ==> segment_holds(#[trigger] segs[i], config)
    &&& segs.len() == 0 ==> first == 0
    &&& segs.len() > 0 ==> segs[0].start == 0 && segs.last().end == first * 0x4000 - 1
    &&& forall|i: int|
        0 <= i < segs.len() - 1 ==> #[trigger] segs[i + 1].start == segs[i].end + 1 && segs[i
            + 1].slot != segs[i].slot
    &&& segs.len() > 0 && first < 4 ==> segs.last().slot != slot_for_page(first, config)
}

/// `segs` are the maximal runs of pages with one slot, covering memory.
pub open spec fn segments_of(segs: Seq<MemorySegment>, config: u8) -> bool {
    &&& segs.len() > 0
    &&& segs.last().end == 0xFFFF
    &&& forall|i: int| 0 <= i < segs.len() ==> segment_holds(#[trigger] segs[i], config)
    &&& segs[0].start == 0
    &&& forall|i: int|
        0 <= i < segs.len() - 1 ==> #[trigger] segs[i + 1].start == segs[i].end + 1 && segs[i
            + 1].slot != segs[i].slot
}

} // verus!
