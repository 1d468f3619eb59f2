//! The video display processor and its two-port command protocol.
use vstd::prelude::*;

use crate::utils::copy_vec;

verus! {

/// Size of video memory in bytes.
pub const VRAM_SIZE: usize = 0x4000;

/// Mask that keeps a VRAM pointer inside video memory.
pub const VRAM_MASK: u16 = 0x3FFF;

/// Number of bytes of one pattern table.
pub const PATTERN_TABLE_SIZE: usize = 2048;

#[derive(Debug, Clone, Copy, Default, PartialEq, Eq, Structural)]
pub struct Sprite {
    pub x: u8,
    pub y: u8,
    pub pattern: u32,
    pub color: u8,
    pub collision: bool,
}

#[derive(Debug, Clone, Copy, PartialEq, Eq, Structural)]
pub enum DisplayMode {
    Text1,
    Multicolor,
    Graphic1,
    Graphic2,
}

/// A pointer masked with `VRAM_MASK` lies inside video memory.
pub proof fn lemma_vram_mask()
    ensures
        forall|x: u16| #[trigger] (x & 0x3FFF) < 0x4000,
{
    assert forall|x: u16| #[trigger] (x & 0x3FFF) < 0x4000 by {
        assert((x & 0x3FFF) < 0x4000) by (bit_vector);
    }
}

/// The mode bits gathered from R0 and R1.
pub open spec fn mode_bits(r0: u8, r1: u8) -> u8 {
    ((r0 & 0x0E) >> 1) | ((r1 & 0x18) << 2)
}

/// The display mode that the mode bits select; unknown values give Text 1.
pub open spec fn mode_of(mx: u8) -> DisplayMode {
    if mx == 0x00 {
        DisplayMode::Graphic1
    } else if mx == 0x01 {
        DisplayMode::Graphic2
    } else if mx == 0x08 {
        DisplayMode::Text1
    } else if mx == 0x10 {
        DisplayMode::Multicolor
    } else {
        DisplayMode::Text1
    }
}

/// Mathematical model of the video processor.
pub struct VdpModel {
    pub vram: Seq<u8>,
    pub data_pre_read: u8,
    pub registers: Seq<u8>,
    pub status: u8,
    pub address: u16,
    pub latch: Option<u8>,
    pub sprites: Seq<Sprite>,
    pub frame: u8,
    pub line: u8,
    pub vblank: bool,
    pub display_mode: DisplayMode,
}

impl VdpModel {
    pub open spec fn wf(self) -> bool {
        &&& self.vram.len() == VRAM_SIZE
        &&& self.registers.len() == 8
        &&& self.address < 0x4000
    }

    pub open spec fn cleared(display_mode: DisplayMode) -> VdpModel {
        VdpModel {
            vram: Seq::new(VRAM_SIZE as nat, |i: int| 0u8),
            data_pre_read: 0,
            registers: Seq::new(8, |i: int| 0u8),
            status: 0,
            address: 0,
            latch: None,
            sprites: Seq::new(8, |i: int| Sprite { x: 0, y: 0, pattern: 0, color: 0, collision: false }),
            frame: 0,
            line: 0,
            vblank: false,
            display_mode,
        }
    }

    /// The pointer one past `a`, wrapped to video memory.
    pub open spec fn next_address(a: u16) -> u16 {
        ((a + 1) as u16) & VRAM_MASK
    }

    /// Data port read: the read-ahead byte is returned, then reloaded from
    /// the pointer, which advances.
    pub open spec fn data_read(self) -> (VdpModel, u8) {
        (
            VdpModel {
                data_pre_read: self.vram[self.address as int],
                address: Self::next_address(self.address),
                latch: None,
                ..self
            },
            self.data_pre_read,
        )
    }

    /// Data port write: the byte goes to VRAM at the pointer, which advances.
    pub open spec fn data_write(self, d: u8) -> VdpModel {
        VdpModel {
            vram: self.vram.update(self.address as int, d),
            data_pre_read: d,
            address: Self::next_address(self.address),
            latch: None,
            ..self
        }
    }

    /// Control port read: the status byte is returned, then its interrupt
    /// bit is cleared.
    pub open spec fn status_read(self) -> (VdpModel, u8) {
        (VdpModel { status: self.status & 0x7F, latch: None, ..self }, self.status)
    }

    /// The model after register `reg` is set to `value`.
    pub open spec fn register_set(self, reg: u8, value: u8) -> VdpModel {
        let registers = self.registers.update(reg as int, value);
        VdpModel {
            registers,
            display_mode: if reg <= 1 {
                mode_of(mode_bits(registers[0], registers[1]))
            } else {
                self.display_mode
            },
            ..self
        }
    }

    /// Control port write of `d`.
    pub open spec fn control_write(self, d: u8) -> VdpModel {
        match self.latch {
            None => VdpModel {
                latch: Some(d),
                address: (self.address & 0xFF00) | (d as u16),
                ..self
            },
            Some(l) => if d & 0x80 == 0 {
                let a = ((l as u16) | (((d & 0x3F) as u16) << 8u16)) & VRAM_MASK;
                if d & 0x40 == 0 {
                    VdpModel {
                        data_pre_read: self.vram[a as int],
                        address: Self::next_address(a),
                        latch: None,
                        ..self
                    }
                } else {
                    VdpModel { address: a, latch: None, ..self }
                }
            } else {
                VdpModel { latch: None, ..self.register_set(d & 0x07, l) }
            },
        }
    }

    /// Port read on `port`: data port, control port, or `0xFF` and no change.
    pub open spec fn port_read(self, port: u8) -> (VdpModel, u8) {
        if port == 0x98 {
            self.data_read()
        } else if port == 0x99 {
            self.status_read()
        } else {
            (self, 0xFF)
        }
    }

    /// Port write on `port`.
    pub open spec fn port_write(self, port: u8, d: u8) -> VdpModel {
        if port == 0x98 {
            self.data_write(d)
        } else if port == 0x99 {
            self.control_write(d)
        } else {
            self
        }
    }
}

/// TMS9918 video display processor.
#[derive(Debug, Clone)]
pub struct TMS9918 {
    pub vram: Vec<u8>,
    /// Read-ahead byte.
    pub data_pre_read: u8,
    pub registers: Vec<u8>,
    pub status: u8,
    pub address: u16,
    /// First byte of a two-byte control command, while one is pending.
    pub first_write: Option<u8>,
    pub sprites: Vec<Sprite>,
    pub frame: u8,
    pub line: u8,
    pub vblank: bool,
    pub display_mode: DisplayMode,
}

impl View for TMS9918 {
    type V = VdpModel;

    open spec fn view(&self) -> VdpModel {
        VdpModel {
            vram: self.vram@,
            data_pre_read: self.data_pre_read,
            registers: self.registers@,
            status: self.status,
            address: self.address,
            latch: self.first_write,
            sprites: self.sprites@,
            frame: self.frame,
            line: self.line,
            vblank: self.vblank,
            display_mode: self.display_mode,
        }
    }
}

/// `n` copies of `value`.
fn filled(value: u8, n: usize) -> (r: Vec<u8>)
    ensures
        r@ == Seq::new(n as nat, |i: int| value),
{
    let mut r: Vec<u8> = Vec::new();
    let mut i: usize = 0;
    while i < n
        invariant
            i <= n,
            r@ == Seq::new(i as nat, |j: int| value),
        decreases n - i,
    {
        r.push(value);
        i = i + 1;
        assert(r@ =~= Seq::new(i as nat, |j: int| value));
    }
    r
}

/// Eight blank sprites.
fn blank_sprites() -> (r: Vec<Sprite>)
    ensures
        r@ == Seq::new(8, |i: int| Sprite { x: 0, y: 0, pattern: 0, color: 0, collision: false }),
{
    let blank = Sprite { x: 0, y: 0, pattern: 0, color: 0, collision: false };
    let mut r: Vec<Sprite> = Vec::new();
    let mut i: usize = 0;
    while i < 8
        invariant
            i <= 8,
            r@ == Seq::new(i as nat, |j: int| blank),
        decreases 8 - i,
    {
        r.push(blank);
        i = i + 1;
        assert(r@ =~= Seq::new(i as nat, |j: int| blank));
    }
    r
}

impl TMS9918 {
    pub fn new() -> (r: Self)
        ensures
            r@ == VdpModel::cleared(DisplayMode::Text1),
            r@.wf(),
    {
        TMS9918 {
            vram: filled(0, VRAM_SIZE),
            data_pre_read: 0,
            registers: filled(0, 8),
            status: 0,
            address: 0,
            first_write: None,
            sprites: blank_sprites(),
            frame: 0,
            line: 0,
            vblank: false,
            display_mode: DisplayMode::Text1,
        }
    }

    /// Clears memory, registers and protocol state; the display mode stays.
    pub fn reset(&mut self)
        ensures
            final(self)@ == VdpModel::cleared(old(self)@.display_mode),
            final(self)@.wf(),
    {
        self.vram = filled(0, VRAM_SIZE);
        self.data_pre_read = 0;
        self.registers = filled(0, 8);
        self.status = 0;
        self.address = 0;
        self.first_write = None;
        self.sprites = blank_sprites();
        self.frame = 0;
        self.line = 0;
        self.vblank = false;
    }

    /// An independent copy.
    pub fn snapshot(&self) -> (r: Self)
        ensures
            r@ == self@,
    {
        let mut sprites: Vec<Sprite> = Vec::new();
        let mut i: usize = 0;
        while i < self.sprites.len()
            invariant
                i <= self.sprites@.len(),
                sprites@ == self.sprites@.subrange(0, i as int),
            decreases self.sprites@.len() - i,
        {
            sprites.push(self.sprites[i]);
            i = i + 1;
            assert(sprites@ =~= self.sprites@.subrange(0, i as int));
        }
        assert(sprites@ =~= self.sprites@);
        TMS9918 {
            vram: copy_vec(&self.vram),
            data_pre_read: self.data_pre_read,
            registers: copy_vec(&self.registers),
            status: self.status,
            address: self.address,
            first_write: self.first_write,
            sprites,
            frame: self.frame,
            line: self.line,
            vblank: self.vblank,
            display_mode: self.display_mode,
        }
    }

    /// The pattern table, which starts at R2 times `0x400`; addresses wrap
    /// at the end of video memory.
    pub fn pattern_table(&self) -> (r: Vec<u8>)
        requires
            self@.wf(),
        ensures
            r@.len() == PATTERN_TABLE_SIZE,
            forall|i: int|
                0 <= i < PATTERN_TABLE_SIZE ==> r@[i] == self.vram@[(self.registers@[2] * 0x400 + i)
                    % 0x4000],
    {
        let base: usize = self.registers[2] as usize * 0x400;
        let mut r: Vec<u8> = Vec::new();
        let mut i: usize = 0;
        while i < PATTERN_TABLE_SIZE
            invariant
                self@.wf(),
                base == self.registers@[2] * 0x400,
                i <= PATTERN_TABLE_SIZE,
                r@.len() == i,
                forall|j: int|
                    0 <= j < i ==> r@[j] == self.vram@[(self.registers@[2] * 0x400 + j) % 0x4000],
            decreases PATTERN_TABLE_SIZE - i,
        {
            r.push(self.vram[(base + i) % VRAM_SIZE]);
            i = i + 1;
        }
        r
    }

    /// The VRAM byte at `address` wrapped to video memory, without touching
    /// the port protocol.
    pub fn vram_read_np(&self, address: usize) -> (r: usize)
        requires
            self@.wf(),
        ensures
            r == self.vram@[address as int % 0x4000],
    {
        self.vram[address % VRAM_SIZE] as usize
    }

    /// Vertical scroll offset; this processor has none.
    pub fn get_vertical_scroll(&self) -> (r: usize)
        ensures
            r == 0,
    {
        0
    }

    fn read_vram(&mut self) -> (r: u8)
        requires
            old(self)@.wf(),
        ensures
            (final(self)@, r) == old(self)@.data_read(),
            final(self)@.wf(),
    {
        proof {
            lemma_vram_mask();
        }
        let data = self.data_pre_read;
        self.data_pre_read = self.vram[self.address as usize];
        self.address = self.address.wrapping_add(1) & VRAM_MASK;
        self.first_write = None;
        data
    }

    fn write_98(&mut self, data: u8)
        requires
            old(self)@.wf(),
        ensures
            final(self)@ == old(self)@.data_write(data),
            final(self)@.wf(),
    {
        proof {
            lemma_vram_mask();
        }
        self.vram.set(self.address as usize, data);
        self.data_pre_read = data;
        self.address = self.address.wrapping_add(1) & VRAM_MASK;
        self.first_write = None;
    }

    fn read_register(&mut self) -> (r: u8)
        ensures
            (final(self)@, r) == old(self)@.status_read(),
    {
        self.first_write = None;
        let res = self.status;
        self.status = self.status & 0x7F;
        res
    }

    fn update_mode(&mut self)
        requires
            old(self)@.wf(),
        ensures
            final(self)@ == (VdpModel {
                display_mode: mode_of(mode_bits(old(self)@.registers[0], old(self)@.registers[1])),
                ..old(self)@
            }),
    {
        let mx_bits = ((self.registers[0] & 0x0E) >> 1) | ((self.registers[1] & 0x18) << 2);
        self.display_mode = match mx_bits {
            0x00 => DisplayMode::Graphic1,
            0x01 => DisplayMode::Graphic2,
            0x08 => DisplayMode::Text1,
            0x10 => DisplayMode::Multicolor,
            _ => DisplayMode::Text1,
        };
    }

    fn write_register(&mut self, reg: u8, value: u8)
        requires
            old(self)@.wf(),
            reg < 8,
        ensures
            final(self)@ == old(self)@.register_set(reg, value),
            final(self)@.wf(),
    {
        self.registers.set(reg as usize, value);
        if reg <= 1 {
            self.update_mode();
        }
    }

    fn write_99(&mut self, data: u8)
        requires
            old(self)@.wf(),
        ensures
            final(self)@ == old(self)@.control_write(data),
            final(self)@.wf(),
    {
        proof {
            lemma_vram_mask();
        }
        match self.first_write {
            None => {
                self.first_write = Some(data);
                let a = self.address;
                self.address = (a & 0xFF00) | (data as u16);
                assert(((a & 0xFF00) | (data as u16)) < 0x4000) by (bit_vector)
                    requires
                        a < 0x4000,
                ;
            },
            Some(latched) => {
                if data & 0x80 == 0 {
                    let a = ((latched as u16) | (((data & 0x3F) as u16) << 8u16)) & VRAM_MASK;
                    assert(a < 0x4000) by (bit_vector)
                        requires
                            a == ((latched as u16) | (((data & 0x3F) as u16) << 8u16)) & 0x3FFF,
                    ;
                    if data & 0x40 == 0 {
                        self.data_pre_read = self.vram[a as usize];
                        self.address = a.wrapping_add(1) & VRAM_MASK;
                    } else {
                        self.address = a;
                    }
                } else {
                    assert(data & 0x07 < 8) by (bit_vector);
                    self.write_register(data & 0x07, latched);
                }
                self.first_write = None;
            },
        }
    }

    /// A read of `port`: `0x98` is the data port, `0x99` the status port.
    pub fn read(&mut self, port: u8) -> (r: u8)
        requires
            old(self)@.wf(),
        ensures
            (final(self)@, r) == old(self)@.port_read(port),
            final(self)@.wf(),
    {
        match port {
            0x98 => self.read_vram(),
            0x99 => self.read_register(),
            _ => 0xFF,
        }
    }

    /// A write to `port`: `0x98` is the data port, `0x99` the control port.
    pub fn write(&mut self, port: u8, data: u8)
        requires
            old(self)@.wf(),
        ensures
            final(self)@ == old(self)@.port_write(port, data),
            final(self)@.wf(),
    {
        match port {
            0x98 => self.write_98(data),
            0x99 => self.write_99(data),
            _ => {},
        }
    }
}

} // verus!
