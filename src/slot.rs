//! Memory slots: the devices that answer CPU memory accesses.
use vstd::prelude::*;

use crate::utils::copy_vec;

verus! {

/// Which of the three slot variants a model describes.
#[derive(PartialEq, Eq, Structural, Clone, Copy, Debug)]
pub enum SlotKind {
    Empty,
    Rom,
    Ram,
}

/// Mathematical model of a slot: its variant, the first address it answers
/// for and its backing bytes.
pub struct SlotModel {
    pub kind: SlotKind,
    pub base: u16,
    pub data: Seq<u8>,
}

impl SlotModel {
    /// The slot holds a backing byte for `address`.
    pub open spec fn covers(self, address: u16) -> bool {
        &&& self.kind != SlotKind::Empty
        &&& self.base <= address
        &&& address - self.base < self.data.len()
    }

    /// What a read of `address` returns: the backing byte, or `0xFF` where
    /// the slot holds none.
    pub open spec fn read(self, address: u16) -> u8 {
        if self.covers(address) {
            self.data[address - self.base]
        } else {
            0xFF
        }
    }

    /// The slot after a write: only RAM keeps what is written.
    pub open spec fn write(self, address: u16, value: u8) -> SlotModel {
        if self.kind == SlotKind::Ram && self.covers(address) {
            SlotModel { data: self.data.update(address - self.base, value), ..self }
        } else {
            self
        }
    }

    pub open spec fn empty() -> SlotModel {
        SlotModel { kind: SlotKind::Empty, base: 0, data: Seq::empty() }
    }
}

/// A byte-addressed memory region.
pub trait Slot {
    spec fn model(&self) -> SlotModel;

    fn read(&self, address: u16) -> (r: u8)
        ensures
            r == self.model().read(address),
    ;

    fn write(&mut self, address: u16, value: u8)
        ensures
            final(self).model() == old(self).model().write(address, value),
    ;
}

/// Reads `data[address - base]`, or `0xFF` outside the backing bytes.
fn backing_read(data: &Vec<u8>, base: u16, address: u16) -> (r: u8)
    ensures
        r == (if base <= address && address - base < data@.len() {
            data@[address - base]
        } else {
            0xFF
        }),
{
    if base <= address && ((address - base) as usize) < data.len() {
        data[(address - base) as usize]
    } else {
        0xFF
    }
}

/// A slot with nothing behind it: reads give `0xFF`, writes are dropped.
#[derive(Debug, Default)]
pub struct EmptySlot;

impl EmptySlot {
    pub fn new() -> (r: Self)
        ensures
            r.model() == SlotModel::empty(),
    {
        EmptySlot
    }
}

impl Slot for EmptySlot {
    open spec fn model(&self) -> SlotModel {
        SlotModel::empty()
    }

    fn read(&self, address: u16) -> (r: u8) {
        0xFF
    }

    fn write(&mut self, address: u16, value: u8) {
    }
}

/// Read-only memory: a byte image answering from `base` on.
#[derive(Debug)]
pub struct RomSlot {
    pub base: u16,
    pub size: u32,
    pub data: Vec<u8>,
}

impl RomSlot {
    /// A ROM of `size` bytes at `base`: the image first, `0xFF` after it.
    pub fn new(rom: &[u8], base: u16, size: u32) -> (r: Self)
        requires
            rom@.len() <= size <= 0x10000,
        ensures
            r.base == base,
            r.size == size,
            r.data@.len() == size,
            forall|i: int| 0 <= i < rom@.len() ==> r.data@[i] == rom@[i],
            forall|i: int| rom@.len() <= i < size ==> r.data@[i] == 0xFF,
    {
        let mut data: Vec<u8> = Vec::new();
        let mut i: usize = 0;
        while i < size as usize
            invariant
                rom@.len() <= size <= 0x10000,
                i <= size,
                data@.len() == i,
                forall|j: int| 0 <= j < i && j < rom@.len() ==> data@[j] == rom@[j],
                forall|j: int| rom@.len() <= j < i ==> data@[j] == 0xFF,
            decreases size - i,
        {
            if i < rom.len() {
                data.push(rom[i]);
            } else {
                data.push(0xFF);
            }
            i = i + 1;
        }
        RomSlot { base, size, data }
    }

    /// An independent slot with the same contents.
    pub fn duplicate(&self) -> (r: Self)
        ensures
            r.model() == self.model(),
            r.size == self.size,
    {
        RomSlot { base: self.base, size: self.size, data: copy_vec(&self.data) }
    }
}

impl Slot for RomSlot {
    open spec fn model(&self) -> SlotModel {
        SlotModel { kind: SlotKind::Rom, base: self.base, data: self.data@ }
    }

    fn read(&self, address: u16) -> (r: u8) {
        backing_read(&self.data, self.base, address)
    }

    fn write(&mut self, address: u16, value: u8) {
    }
}

/// Writable memory of `size` bytes at `base`.
#[derive(Debug)]
pub struct RamSlot {
    pub base: u16,
    pub size: u32,
    pub data: Vec<u8>,
}

impl RamSlot {
    /// RAM of `size` bytes at `base`, every byte `0xFF`.
    pub fn new(base: u16, size: u32) -> (r: Self)
        requires
            size <= 0x10000,
        ensures
            r.base == base,
            r.size == size,
            r.data@.len() == size,
            forall|i: int| 0 <= i < size ==> r.data@[i] == 0xFF,
    {
        let mut data: Vec<u8> = Vec::new();
        let mut i: usize = 0;
        while i < size as usize
            invariant
                size <= 0x10000,
                i <= size,
                data@.len() == i,
                forall|j: int| 0 <= j < i ==> data@[j] == 0xFF,
            decreases size - i,
        {
            data.push(0xFF);
            i = i + 1;
        }
        RamSlot { base, size, data }
    }

    /// An independent slot with the same contents.
    pub fn duplicate(&self) -> (r: Self)
        ensures
            r.model() == self.model(),
            r.size == self.size,
    {
        RamSlot { base: self.base, size: self.size, data: copy_vec(&self.data) }
    }
}

impl Slot for RamSlot {
    open spec fn model(&self) -> SlotModel {
        SlotModel { kind: SlotKind::Ram, base: self.base, data: self.data@ }
    }

    fn read(&self, address: u16) -> (r: u8) {
        backing_read(&self.data, self.base, address)
    }

    fn write(&mut self, address: u16, value: u8) {
        if self.base <= address && ((address - self.base) as usize) < self.data.len() {
            self.data.set((address - self.base) as usize, value);
        }
    }
}

/// One of the three slot variants.
#[derive(Debug)]
pub enum SlotType {
    Empty(EmptySlot),
    Ram(RamSlot),
    Rom(RomSlot),
}

impl SlotType {
    /// An independent slot with the same contents.
    pub fn duplicate(&self) -> (r: Self)
        ensures
            r.model() == self.model(),
    {
        match self {
            SlotType::Empty(_) => SlotType::Empty(EmptySlot),
            SlotType::Ram(s) => SlotType::Ram(s.duplicate()),
            SlotType::Rom(s) => SlotType::Rom(s.duplicate()),
        }
    }

    /// Name of the variant.
    pub fn name(&self) -> (r: &'static str) {
        match self {
            SlotType::Empty(_) => "Empty",
            SlotType::Ram(_) => "RAM",
            SlotType::Rom(_) => "ROM",
        }
    }
}

impl Slot for SlotType {
    open spec fn model(&self) -> SlotModel {
        match self {
            SlotType::Empty(s) => s.model(),
            SlotType::Ram(s) => s.model(),
            SlotType::Rom(s) => s.model(),
        }
    }

    fn read(&self, address: u16) -> (r: u8) {
        match self {
            SlotType::Empty(s) => s.read(address),
            SlotType::Ram(s) => s.read(address),
            SlotType::Rom(s) => s.read(address),
        }
    }

    fn write(&mut self, address: u16, value: u8) {
        match self {
            SlotType::Empty(s) => s.write(address, value),
            SlotType::Ram(s) => s.write(address, value),
            SlotType::Rom(s) => s.write(address, value),
        }
    }
}

} // verus!
