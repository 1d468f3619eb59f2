//! The Z80 interpreter.
use vstd::prelude::*;

use crate::alu::{
    FLAG_C, FLAG_H, FLAG_N, FLAG_P, FLAG_S, FLAG_Z, adc16, add16_flags, alu, daa, dec8, inc8,
    make_flags, parity_of, rot, sbc16, sub8,
};
use crate::bus::{Bus, MEMORY_SIZE};
use crate::model::{
    Z80State, ed_block, ed_ini, ed_outi, ed_transfer, ed_hl16, ed_in, ed_ld16, ed_neg, ed_out, ed_ret, exec_cb, exec_ed,
    exec_index, exec_index_cb, exec_op, exec_x0, exec_x12, exec_x3, index_half, index_mem,
    index_stack, index_word, next_cycles, sext, step, x3_call, x3_jump, x3_pop,
};
use crate::utils::{add16, sub16, wrap16, wrap8};

verus! {

/// The six flags of the flag register.
#[derive(Debug, PartialEq, Eq, Structural, Clone, Copy)]
pub enum Flag {
    /// Sign.
    S,
    /// Zero.
    Z,
    /// Half carry.
    H,
    /// Parity or overflow.
    P,
    /// Add/subtract.
    N,
    /// Carry.
    C,
}

impl Flag {
    pub open spec fn spec_mask(self) -> u8 {
        match self {
            Flag::S => FLAG_S,
            Flag::Z => FLAG_Z,
            Flag::H => FLAG_H,
            Flag::P => FLAG_P,
            Flag::N => FLAG_N,
            Flag::C => FLAG_C,
        }
    }

    /// The bit of the flag register that holds this flag.
    pub fn mask(self) -> (r: u8)
        ensures
            r == self.spec_mask(),
    {
        match self {
            Flag::S => FLAG_S,
            Flag::Z => FLAG_Z,
            Flag::H => FLAG_H,
            Flag::P => FLAG_P,
            Flag::N => FLAG_N,
            Flag::C => FLAG_C,
        }
    }
}

/// An opcode that this interpreter does not implement, with the address of
/// its first byte and its prefix byte.
#[derive(Debug, PartialEq, Eq, Structural, Clone, Copy)]
pub struct UnknownOpcode {
    pub pc: u16,
    pub prefix: Option<u8>,
    pub opcode: u8,
}

/// The result `r` of running an instruction from `before` to `after`
/// agrees with its meaning `expected`; an unsupported opcode changes nothing.
pub open spec fn outcome(
    r: Result<(), UnknownOpcode>,
    before: Z80State,
    after: Z80State,
    expected: Option<Z80State>,
) -> bool {
    match expected {
        Some(t) => r is Ok && after == t,
        None => match r {
            Ok(_) => false,
            Err(e) => after == before && e.pc == before.pc,
        },
    }
}

/// The CPU, with the bus it drives.
#[derive(Debug)]
pub struct Z80 {
    pub bus: Bus,
    pub a: u8,
    pub f: u8,
    pub b: u8,
    pub c: u8,
    pub d: u8,
    pub e: u8,
    pub h: u8,
    pub l: u8,
    pub a_alt: u8,
    pub f_alt: u8,
    pub b_alt: u8,
    pub c_alt: u8,
    pub d_alt: u8,
    pub e_alt: u8,
    pub h_alt: u8,
    pub l_alt: u8,
    pub sp: u16,
    pub pc: u16,
    pub ix: u16,
    pub iy: u16,
    pub iff1: bool,
    pub iff2: bool,
    pub im: u8,
    pub interrupt_request: bool,
    pub halted: bool,
    pub cycles: u64,
}

impl View for Z80 {
    type V = Z80State;

    open spec fn view(&self) -> Z80State {
        Z80State {
            a: self.a,
            f: self.f,
            b: self.b,
            c: self.c,
            d: self.d,
            e: self.e,
            h: self.h,
            l: self.l,
            a_alt: self.a_alt,
            f_alt: self.f_alt,
            b_alt: self.b_alt,
            c_alt: self.c_alt,
            d_alt: self.d_alt,
            e_alt: self.e_alt,
            h_alt: self.h_alt,
            l_alt: self.l_alt,
            sp: self.sp,
            pc: self.pc,
            ix: self.ix,
            iy: self.iy,
            iff1: self.iff1,
            iff2: self.iff2,
            im: self.im,
            interrupt_request: self.interrupt_request,
            halted: self.halted,
            cycles: self.cycles,
            bus: self.bus@,
        }
    }
}

/// `v - 1` on eight bits.
fn dec_byte(v: u8) -> (r: u8)
    ensures
        r == wrap8(v - 1),
{
    if v == 0 {
        255
    } else {
        v - 1
    }
}

/// `base + n + sext(d)` on sixteen bits.
fn relative(base: u16, n: u16, d: u8) -> (r: u16)
    ensures
        r == wrap16(base + n + sext(d)),
{
    let t = add16(base, n);
    proof {
        vstd::arithmetic::div_mod::lemma_add_mod_noop(base + n, sext(d), 0x10000);
        vstd::arithmetic::div_mod::lemma_mod_twice(sext(d), 0x10000);
    }
    if d < 128 {
        add16(t, d as u16)
    } else {
        sub16(t, 256 - d as u16)
    }
}

impl Z80 {
    pub open spec fn wf(&self) -> bool {
        self@.wf()
    }

    /// Register values at power on: main registers `0xFF`, SP `0xFFFF`.
    pub open spec fn power_on(bus: crate::bus::BusModel) -> Z80State {
        Z80State {
            a: 0xFF,
            f: 0xFF,
            b: 0xFF,
            c: 0xFF,
            d: 0xFF,
            e: 0xFF,
            h: 0xFF,
            l: 0xFF,
            a_alt: 0xFF,
            f_alt: 0xFF,
            b_alt: 0xFF,
            c_alt: 0xFF,
            d_alt: 0xFF,
            e_alt: 0xFF,
            h_alt: 0xFF,
            l_alt: 0xFF,
            sp: 0xFFFF,
            pc: 0,
            ix: 0,
            iy: 0,
            iff1: false,
            iff2: false,
            im: 0,
            interrupt_request: false,
            halted: false,
            cycles: 0,
            bus,
        }
    }

    /// A CPU in its power-on state over a bus with four empty slots.
    pub fn new_with_dependencies() -> (r: Self)
        ensures
            r@ == Self::power_on(r@.bus),
            r.wf(),
    {
        Z80::new(Bus::default())
    }

    /// A CPU in its power-on state driving `bus`.
    pub fn new(bus: Bus) -> (r: Self)
        requires
            bus@.wf(),
        ensures
            r@ == Self::power_on(bus@),
            r.wf(),
    {
        Z80 {
            bus,
            a: 0xFF,
            f: 0xFF,
            b: 0xFF,
            c: 0xFF,
            d: 0xFF,
            e: 0xFF,
            h: 0xFF,
            l: 0xFF,
            a_alt: 0xFF,
            f_alt: 0xFF,
            b_alt: 0xFF,
            c_alt: 0xFF,
            d_alt: 0xFF,
            e_alt: 0xFF,
            h_alt: 0xFF,
            l_alt: 0xFF,
            sp: 0xFFFF,
            pc: 0,
            ix: 0,
            iy: 0,
            iff1: false,
            iff2: false,
            im: 0,
            interrupt_request: false,
            halted: false,
            cycles: 0,
        }
    }

    /// Register values after a reset: main registers `0xFF`, alternates 0,
    /// SP `0xF000`; the bus is reset too.
    pub open spec fn after_reset(s: Z80State) -> Z80State {
        Z80State {
            a_alt: 0,
            f_alt: 0,
            b_alt: 0,
            c_alt: 0,
            d_alt: 0,
            e_alt: 0,
            h_alt: 0,
            l_alt: 0,
            sp: 0xF000,
            ..Self::power_on(s.bus.reset())
        }
    }

    pub fn reset(&mut self)
        ensures
            final(self)@ == Self::after_reset(old(self)@),
            final(self).wf(),
    {
        self.a = 0xFF;
        self.f = 0xFF;
        self.b = 0xFF;
        self.c = 0xFF;
        self.d = 0xFF;
        self.e = 0xFF;
        self.h = 0xFF;
        self.l = 0xFF;
        self.a_alt = 0;
        self.f_alt = 0;
        self.b_alt = 0;
        self.c_alt = 0;
        self.d_alt = 0;
        self.e_alt = 0;
        self.h_alt = 0;
        self.l_alt = 0;
        self.sp = 0xF000;
        self.pc = 0;
        self.ix = 0;
        self.iy = 0;
        self.iff1 = false;
        self.iff2 = false;
        self.im = 0;
        self.interrupt_request = false;
        self.halted = false;
        self.cycles = 0;
        self.bus.reset();
    }

    /// Raises the interrupt line; the request is taken at the next step in
    /// which interrupts are enabled.
    pub fn request_interrupt(&mut self)
        ensures
            final(self)@ == (Z80State { interrupt_request: true, ..old(self)@ }),
    {
        self.interrupt_request = true;
    }

    /// The whole address space as the CPU sees it now.
    pub fn memory(&self) -> (r: Vec<u8>)
        ensures
            r@.len() == MEMORY_SIZE,
            forall|i: int| 0 <= i < MEMORY_SIZE ==> r@[i] == self@.bus.mem(i as u16),
    {
        let mut memory: Vec<u8> = Vec::new();
        let mut i: usize = 0;
        while i < self.bus.mem_size()
            invariant
                i <= MEMORY_SIZE,
                memory@.len() == i,
                forall|j: int| 0 <= j < i ==> memory@[j] == self@.bus.mem(j as u16),
            decreases MEMORY_SIZE - i,
        {
            memory.push(self.read_byte(i as u16));
            i = i + 1;
        }
        memory
    }

    pub fn set_flag(&mut self, flag: Flag, value: bool)
        ensures
            final(self)@ == old(self)@.with_f(
                if value {
                    old(self).f | flag.spec_mask()
                } else {
                    old(self).f & !flag.spec_mask()
                },
            ),
    {
        if value {
            self.f = self.f | flag.mask();
        } else {
            self.f = self.f & !flag.mask();
        }
    }

    pub fn get_flag(&self, flag: Flag) -> (r: bool)
        ensures
            r == (self.f & flag.spec_mask() != 0),
    {
        self.f & flag.mask() != 0
    }

    pub fn check_flag(&self, flag: Flag) -> (r: bool)
        ensures
            r == (self.f & flag.spec_mask() != 0),
    {
        self.get_flag(flag)
    }

    pub fn read_byte(&self, address: u16) -> (r: u8)
        ensures
            r == self@.bus.mem(address),
    {
        self.bus.read_byte(address)
    }

    pub fn read_signed_byte(&self, addr: u16) -> (r: i8)
        ensures
            r as int == sext(self@.bus.mem(addr)),
    {
        let u = self.read_byte(addr);
        if u < 128 {
            u as i8
        } else {
            (u as i16 - 256) as i8
        }
    }

    pub fn read_word(&self, address: u16) -> (r: u16)
        ensures
            r == self@.bus.word(address),
    {
        self.bus.read_word(address)
    }

    pub fn write_byte(&mut self, address: u16, value: u8)
        ensures
            final(self)@ == old(self)@.write_mem(address, value),
    {
        self.bus.write_byte(address, value)
    }

    pub fn write_word(&mut self, address: u16, value: u16)
        ensures
            final(self)@ == old(self)@.write_word(address, value),
    {
        self.bus.write_word(address, value)
    }

    pub fn get_af(&self) -> (r: u16)
        ensures
            r == self@.af(),
    {
        self.a as u16 * 256 + self.f as u16
    }

    pub fn get_bc(&self) -> (r: u16)
        ensures
            r == self@.bc(),
    {
        self.b as u16 * 256 + self.c as u16
    }

    pub fn get_de(&self) -> (r: u16)
        ensures
            r == self@.de(),
    {
        self.d as u16 * 256 + self.e as u16
    }

    pub fn get_hl(&self) -> (r: u16)
        ensures
            r == self@.hl(),
    {
        self.h as u16 * 256 + self.l as u16
    }

    /// `IX+d`, `d` read as a signed displacement.
    pub fn get_ix_d(&self, d: u8) -> (r: u16)
        ensures
            r == wrap16(self.ix + sext(d)),
    {
        relative(self.ix, 0, d)
    }

    /// `IY+d`, `d` read as a signed displacement.
    pub fn get_iy_d(&self, d: u8) -> (r: u16)
        ensures
            r == wrap16(self.iy + sext(d)),
    {
        relative(self.iy, 0, d)
    }

    pub fn set_af(&mut self, value: u16)
        ensures
            final(self)@ == old(self)@.with_af(value),
    {
        self.a = (value / 256) as u8;
        self.f = (value % 256) as u8;
    }

    pub fn set_bc(&mut self, value: u16)
        ensures
            final(self)@ == old(self)@.with_bc(value),
    {
        self.b = (value / 256) as u8;
        self.c = (value % 256) as u8;
    }

    pub fn set_de(&mut self, value: u16)
        ensures
            final(self)@ == old(self)@.with_de(value),
    {
        self.d = (value / 256) as u8;
        self.e = (value % 256) as u8;
    }

    pub fn set_hl(&mut self, value: u16)
        ensures
            final(self)@ == old(self)@.with_hl(value),
    {
        self.h = (value / 256) as u8;
        self.l = (value % 256) as u8;
    }

    fn advance(&mut self, n: u16)
        ensures
            final(self)@ == old(self)@.advance(n as int),
    {
        self.pc = add16(self.pc, n);
    }

    fn imm8(&self, i: u16) -> (r: u8)
        ensures
            r == self@.imm8(i as int),
    {
        self.read_byte(add16(self.pc, i))
    }

    fn imm16(&self, i: u16) -> (r: u16)
        ensures
            r == self@.imm16(i as int),
    {
        self.read_word(add16(self.pc, i))
    }

    fn get_register_by_index(&self, index: u8) -> (r: u8)
        ensures
            r == self@.reg8(index),
    {
        match index {
            0 => self.b,
            1 => self.c,
            2 => self.d,
            3 => self.e,
            4 => self.h,
            5 => self.l,
            6 => self.read_byte(self.get_hl()),
            _ => self.a,
        }
    }

    fn set_register_by_index(&mut self, index: u8, value: u8)
        ensures
            final(self)@ == old(self)@.set_reg8(index, value),
    {
        match index {
            0 => self.b = value,
            1 => self.c = value,
            2 => self.d = value,
            3 => self.e = value,
            4 => self.h = value,
            5 => self.l = value,
            6 => {
                let hl = self.get_hl();
                self.write_byte(hl, value);
            },
            _ => self.a = value,
        }
    }

    fn get_rp(&self, p: u8) -> (r: u16)
        ensures
            r == self@.rp(p),
    {
        match p {
            0 => self.get_bc(),
            1 => self.get_de(),
            2 => self.get_hl(),
            _ => self.sp,
        }
    }

    fn set_rp(&mut self, p: u8, v: u16)
        ensures
            final(self)@ == old(self)@.set_rp(p, v),
    {
        match p {
            0 => self.set_bc(v),
            1 => self.set_de(v),
            2 => self.set_hl(v),
            _ => self.sp = v,
        }
    }

    fn get_index(&self, iy: bool) -> (r: u16)
        ensures
            r == self@.index(iy),
    {
        if iy {
            self.iy
        } else {
            self.ix
        }
    }

    fn set_index(&mut self, iy: bool, v: u16)
        ensures
            final(self)@ == old(self)@.with_index(iy, v),
    {
        if iy {
            self.iy = v;
        } else {
            self.ix = v;
        }
    }

    fn push(&mut self, value: u16)
        ensures
            final(self)@ == old(self)@.push(value),
    {
        self.sp = sub16(self.sp, 2);
        self.write_word(self.sp, value);
    }

    fn pop(&mut self) -> (r: u16)
        ensures
            (final(self)@, r) == old(self)@.pop(),
    {
        let value = self.read_word(self.sp);
        self.sp = add16(self.sp, 2);
        value
    }

    fn condition(&self, y: u8) -> (r: bool)
        ensures
            r == self@.cond(y),
    {
        match y {
            0 => self.f & FLAG_Z == 0,
            1 => self.f & FLAG_Z != 0,
            2 => self.f & FLAG_C == 0,
            3 => self.f & FLAG_C != 0,
            4 => self.f & FLAG_P == 0,
            5 => self.f & FLAG_P != 0,
            6 => self.f & FLAG_S == 0,
            _ => self.f & FLAG_S != 0,
        }
    }

    fn input(&mut self, port: u8) -> (r: u8)
        requires
            old(self).wf(),
        ensures
            (final(self)@, r) == old(self)@.input(port),
            final(self).wf(),
    {
        self.bus.input(port)
    }

    fn output(&mut self, port: u8, value: u8)
        requires
            old(self).wf(),
        ensures
            final(self)@ == old(self)@.output(port, value),
            final(self).wf(),
    {
        self.bus.output(port, value)
    }
}


impl Z80 {
    /// Opcodes with `x == 0`.
    fn exec_x0(&mut self, op: u8)
        requires
            old(self).wf(),
            op / 64 == 0,
        ensures
            Some(final(self)@) == exec_x0(old(self)@, op),
            final(self).wf(),
    {
        match op % 8 {
            0 => self.exec_x0_z0(op),
            1 => self.exec_x0_z1(op),
            2 => self.exec_x0_z2(op),
            3 => self.exec_x0_z3(op),
            4 => self.exec_x0_z4(op),
            5 => self.exec_x0_z5(op),
            6 => self.exec_x0_z6(op),
            _ => self.exec_x0_z7(op),
        }
    }

    /// Opcodes with `x == 0` and `z == 0`: relative jumps and exchanges.
    fn exec_x0_z0(&mut self, op: u8)
        requires
            old(self).wf(),
            op / 64 == 0,
            op % 8 == 0,
        ensures
            Some(final(self)@) == exec_x0(old(self)@, op),
            final(self).wf(),
    {
        let y = (op / 8) % 8;
        let p = y / 2;
        let q = y % 2;
        if y == 0 {
            self.advance(1);
        } else if y == 1 {
            let (a, f) = (self.a, self.f);
            self.a = self.a_alt;
            self.f = self.f_alt;
            self.a_alt = a;
            self.f_alt = f;
            self.advance(1);
        } else if y == 2 {
            let target = relative(self.pc, 2, self.imm8(1));
            self.b = dec_byte(self.b);
            if self.b != 0 {
                self.pc = target;
            } else {
                self.advance(2);
            }
        } else if y == 3 || self.condition(y - 4) {
            self.pc = relative(self.pc, 2, self.imm8(1));
        } else {
            self.advance(2);
        }
    }

    /// Opcodes with `x == 0` and `z == 1`: 16-bit loads and additions.
    fn exec_x0_z1(&mut self, op: u8)
        requires
            old(self).wf(),
            op / 64 == 0,
            op % 8 == 1,
        ensures
            Some(final(self)@) == exec_x0(old(self)@, op),
            final(self).wf(),
    {
        let y = (op / 8) % 8;
        let p = y / 2;
        let q = y % 2;
        if q == 0 {
            let v = self.imm16(1);
            self.set_rp(p, v);
            self.advance(3);
        } else {
            let (r, f) = add16_flags(self.get_hl(), self.get_rp(p), self.f);
            self.set_hl(r);
            self.f = f;
            self.advance(1);
        }
    }

    /// Opcodes with `x == 0` and `z == 2`: indirect loads.
    #[verifier::rlimit(50)]
    fn exec_x0_z2(&mut self, op: u8)
        requires
            old(self).wf(),
            op / 64 == 0,
            op % 8 == 2,
        ensures
            Some(final(self)@) == exec_x0(old(self)@, op),
            final(self).wf(),
    {
        let y = (op / 8) % 8;
        let p = y / 2;
        let q = y % 2;
        if q == 0 {
            if p == 0 {
                let a = self.get_bc();
                self.write_byte(a, self.a);
                self.advance(1);
            } else if p == 1 {
                let a = self.get_de();
                self.write_byte(a, self.a);
                self.advance(1);
            } else if p == 2 {
                let a = self.imm16(1);
                let v = self.get_hl();
                self.write_word(a, v);
                self.advance(3);
            } else {
                let a = self.imm16(1);
                self.write_byte(a, self.a);
                self.advance(3);
            }
        } else {
            if p == 0 {
                self.a = self.read_byte(self.get_bc());
                self.advance(1);
            } else if p == 1 {
                self.a = self.read_byte(self.get_de());
                self.advance(1);
            } else if p == 2 {
                let v = self.read_word(self.imm16(1));
                self.set_hl(v);
                self.advance(3);
            } else {
                self.a = self.read_byte(self.imm16(1));
                self.advance(3);
            }
        }
    }

    /// Opcodes with `x == 0` and `z == 3`: 16-bit increments.
    fn exec_x0_z3(&mut self, op: u8)
        requires
            old(self).wf(),
            op / 64 == 0,
            op % 8 == 3,
        ensures
            Some(final(self)@) == exec_x0(old(self)@, op),
            final(self).wf(),
    {
        let y = (op / 8) % 8;
        let p = y / 2;
        let q = y % 2;
        let v = self.get_rp(p);
        if q == 0 {
            self.set_rp(p, add16(v, 1));
        } else {
            self.set_rp(p, sub16(v, 1));
        }
        self.advance(1);
    }

    /// Opcodes with `x == 0` and `z == 4`: 8-bit increments.
    fn exec_x0_z4(&mut self, op: u8)
        requires
            old(self).wf(),
            op / 64 == 0,
            op % 8 == 4,
        ensures
            Some(final(self)@) == exec_x0(old(self)@, op),
            final(self).wf(),
    {
        let y = (op / 8) % 8;
        let p = y / 2;
        let q = y % 2;
        let (v, f) = inc8(self.get_register_by_index(y), self.f);
        self.f = f;
        self.set_register_by_index(y, v);
        self.advance(1);
    }

    /// Opcodes with `x == 0` and `z == 5`: 8-bit decrements.
    fn exec_x0_z5(&mut self, op: u8)
        requires
            old(self).wf(),
            op / 64 == 0,
            op % 8 == 5,
        ensures
            Some(final(self)@) == exec_x0(old(self)@, op),
            final(self).wf(),
    {
        let y = (op / 8) % 8;
        let p = y / 2;
        let q = y % 2;
        let (v, f) = dec8(self.get_register_by_index(y), self.f);
        self.f = f;
        self.set_register_by_index(y, v);
        self.advance(1);
    }

    /// Opcodes with `x == 0` and `z == 6`: 8-bit immediate loads.
    fn exec_x0_z6(&mut self, op: u8)
        requires
            old(self).wf(),
            op / 64 == 0,
            op % 8 == 6,
        ensures
            Some(final(self)@) == exec_x0(old(self)@, op),
            final(self).wf(),
    {
        let y = (op / 8) % 8;
        let p = y / 2;
        let q = y % 2;
        let v = self.imm8(1);
        self.set_register_by_index(y, v);
        self.advance(2);
    }

    /// Opcodes with `x == 0` and `z == 7`: accumulator rotates and flag operations.
    fn exec_x0_z7(&mut self, op: u8)
        requires
            old(self).wf(),
            op / 64 == 0,
            op % 8 == 7,
        ensures
            Some(final(self)@) == exec_x0(old(self)@, op),
            final(self).wf(),
    {
        let y = (op / 8) % 8;
        let p = y / 2;
        let q = y % 2;
        if y < 4 {
            let (v, c) = rot(y, self.a, self.f & FLAG_C != 0);
            self.a = v;
            self.f = (self.f & 0xC4) | (if c { FLAG_C } else { 0 });
        } else if y == 4 {
            let (v, f) = daa(self.a, self.f);
            self.a = v;
            self.f = f;
        } else if y == 5 {
            self.a = self.a ^ 0xFF;
            self.f = self.f | 0x12;
        } else if y == 6 {
            self.f = (self.f & 0xC4) | FLAG_C;
        } else {
            let c = self.f & FLAG_C != 0;
            self.f = (self.f & 0xC4) | (if c { FLAG_H } else { 0 }) | (if c { 0 } else { FLAG_C });
        }
        self.advance(1);
    }

    /// Loads between registers, `HALT`, and accumulator operations on a
    /// register.
    fn exec_x12(&mut self, op: u8)
        requires
            op / 64 == 1 || op / 64 == 2,
        ensures
            final(self)@ == exec_x12(old(self)@, op),
            final(self).wf() == old(self).wf(),
    {
        let y = (op / 8) % 8;
        let z = op % 8;
        if op == 0x76 {
            self.halted = true;
        } else if op / 64 == 1 {
            let v = self.get_register_by_index(z);
            self.set_register_by_index(y, v);
        } else {
            let (a, f) = alu(y, self.a, self.f, self.get_register_by_index(z));
            self.a = a;
            self.f = f;
        }
        self.advance(1);
    }

    /// `CB`-prefixed opcodes.
    #[verifier::rlimit(100)]
    fn exec_cb(&mut self)
        requires
            old(self).wf(),
        ensures
            final(self)@ == exec_cb(old(self)@),
            final(self).wf(),
    {
        proof {
            reveal(exec_cb);
        }
        let op = self.imm8(1);
        let x = op / 64;
        let y = (op / 8) % 8;
        let z = op % 8;
        let v = self.get_register_by_index(z);
        if x == 0 {
            let (r, c) = rot(y, v, self.f & FLAG_C != 0);
            self.f = make_flags(r >= 0x80, r == 0, false, parity_of(r), false, c);
            self.set_register_by_index(z, r);
        } else if x == 1 {
            self.f = bit_flags(self.f, y, v);
        } else if x == 2 {
            self.set_register_by_index(z, v & !(1u8 << y));
        } else {
            self.set_register_by_index(z, v | (1u8 << y));
        }
        self.advance(2);
    }
}

/// Flags after `BIT y` on `v`.
fn bit_flags(f: u8, y: u8, v: u8) -> (r: u8)
    requires
        y < 8,
    ensures
        r == crate::model::bit_flags(f, y, v),
{
    let set = (v >> y) & 1 == 1;
    (f & FLAG_C) | (if y == 7 && set { FLAG_S } else { 0 }) | (if set { 0 } else { FLAG_Z }) | FLAG_H | (
    if set { 0 } else { FLAG_P })
}

impl Z80 {
    /// Returns, pops, `EXX`, `JP (HL)`, `LD SP,HL`.
    fn exec_x3_pop(&mut self, op: u8)
        requires
            op / 64 == 3,
            op % 8 <= 1,
        ensures
            final(self)@ == x3_pop(old(self)@, op),
            final(self).wf() == old(self).wf(),
    {
        proof {
            reveal(x3_pop);
        }
        let y = (op / 8) % 8;
        let p = y / 2;
        let q = y % 2;
        if op % 8 == 0 {
            if self.condition(y) {
                self.pc = self.pop();
            } else {
                self.advance(1);
            }
        } else if q == 0 {
            let v = self.pop();
            if p == 3 {
                self.set_af(v);
            } else {
                self.set_rp(p, v);
            }
            self.advance(1);
        } else if p == 0 {
            self.pc = self.pop();
        } else if p == 1 {
            let (b, c, d, e, h, l) = (self.b, self.c, self.d, self.e, self.h, self.l);
            self.b = self.b_alt;
            self.c = self.c_alt;
            self.d = self.d_alt;
            self.e = self.e_alt;
            self.h = self.h_alt;
            self.l = self.l_alt;
            self.b_alt = b;
            self.c_alt = c;
            self.d_alt = d;
            self.e_alt = e;
            self.h_alt = h;
            self.l_alt = l;
            self.advance(1);
        } else if p == 2 {
            self.pc = self.get_hl();
        } else {
            self.sp = self.get_hl();
            self.advance(1);
        }
    }

    /// Jumps, the `CB` table, port transfers, exchanges, `DI`, `EI`.
    fn exec_x3_jump(&mut self, op: u8)
        requires
            old(self).wf(),
            op / 64 == 3,
            op % 8 == 2 || op % 8 == 3,
        ensures
            final(self)@ == x3_jump(old(self)@, op),
            final(self).wf(),
    {
        proof {
            reveal(x3_jump);
        }
        let y = (op / 8) % 8;
        if op % 8 == 2 {
            if self.condition(y) {
                self.pc = self.imm16(1);
            } else {
                self.advance(3);
            }
        } else if y == 0 {
            self.pc = self.imm16(1);
        } else if y == 1 {
            self.exec_cb();
        } else if y == 2 {
            let port = self.imm8(1);
            self.output(port, self.a);
            self.advance(2);
        } else if y == 3 {
            let port = self.imm8(1);
            self.a = self.input(port);
            self.advance(2);
        } else if y == 4 {
            let t = self.read_word(self.sp);
            let hl = self.get_hl();
            self.write_word(self.sp, hl);
            self.set_hl(t);
            self.advance(1);
        } else if y == 5 {
            let de = self.get_de();
            let hl = self.get_hl();
            self.set_hl(de);
            self.set_de(hl);
            self.advance(1);
        } else if y == 6 {
            self.iff1 = false;
            self.iff2 = false;
            self.advance(1);
        } else {
            self.iff1 = true;
            self.iff2 = true;
            self.advance(1);
        }
    }

    /// `CALL cc,nn` and `CALL nn`: the target is read before the return
    /// address is pushed.
    fn exec_x3_call(&mut self, op: u8)
        requires
            op / 64 == 3,
        ensures
            final(self)@ == x3_call(old(self)@, op),
            final(self).wf() == old(self).wf(),
    {
        proof {
            reveal(x3_call);
        }
        if op % 8 == 5 || self.condition((op / 8) % 8) {
            let target = self.imm16(1);
            let ret = add16(self.pc, 3);
            self.push(ret);
            self.pc = target;
        } else {
            self.advance(3);
        }
    }

    fn exec_x3(&mut self, op: u8) -> (r: Result<(), UnknownOpcode>)
        requires
            old(self).wf(),
            op / 64 == 3,
        ensures
            outcome(r, old(self)@, final(self)@, exec_x3(old(self)@, op)),
            final(self).wf(),
    {
        let y = (op / 8) % 8;
        let z = op % 8;
        if z <= 1 {
            self.exec_x3_pop(op);
            Ok(())
        } else if z <= 3 {
            self.exec_x3_jump(op);
            Ok(())
        } else if z == 4 || (z == 5 && y == 1) {
            self.exec_x3_call(op);
            Ok(())
        } else if z == 5 {
            if y % 2 == 0 {
                let v = if y / 2 == 3 { self.get_af() } else { self.get_rp(y / 2) };
                self.push(v);
                self.advance(1);
                Ok(())
            } else if y == 3 {
                self.exec_index(false)
            } else if y == 5 {
                self.exec_ed()
            } else {
                self.exec_index(true)
            }
        } else if z == 6 {
            let (a, f) = alu(y, self.a, self.f, self.imm8(1));
            self.a = a;
            self.f = f;
            self.advance(2);
            Ok(())
        } else {
            let ret = add16(self.pc, 1);
            self.push(ret);
            self.pc = y as u16 * 8;
            Ok(())
        }
    }

    /// One step of `LDI` (`dec` false) or `LDD` (`dec` true), flags aside.
    fn block_move(&mut self, dec: bool)
        ensures
            final(self)@ == old(self)@.block_move(if dec { -1int } else { 1int }),
            final(self).wf() == old(self).wf(),
    {
        let hl = self.get_hl();
        let de = self.get_de();
        let bc = self.get_bc();
        let v = self.read_byte(hl);
        self.write_byte(de, v);
        if dec {
            self.set_hl(sub16(hl, 1));
            self.set_de(sub16(de, 1));
        } else {
            self.set_hl(add16(hl, 1));
            self.set_de(add16(de, 1));
        }
        self.set_bc(sub16(bc, 1));
    }

    /// `LDIR` (`dec` false) or `LDDR` (`dec` true): block moves until BC is
    /// zero, all within this step; flags aside.
    fn block_repeat(&mut self, dec: bool)
        ensures
            final(self)@ == old(self)@.block_repeat(
                if dec { -1int } else { 1int },
                old(self)@.bc() as nat,
            ),
            final(self).wf() == old(self).wf(),
    {
        let n = self.get_bc();
        let ghost s0 = self@;
        let mut i: u16 = 0;
        while i < n
            invariant
                i <= n,
                n == s0.bc(),
                self@ == s0.block_repeat(if dec { -1int } else { 1int }, i as nat),
                self.wf() == s0.wf(),
            decreases n - i,
        {
            self.block_move(dec);
            i = i + 1;
        }
    }

    /// `LDI`, `LDD`, `LDIR`, `LDDR`.
    fn exec_ed_transfer(&mut self, y: u8)
        ensures
            final(self)@ == ed_transfer(old(self)@, y),
            final(self).wf() == old(self).wf(),
    {
        proof {
            reveal(ed_transfer);
        }
        let f = self.f;
        if y / 2 == 2 {
            self.block_move(y % 2 == 1);
            let bc = self.get_bc();
            self.f = (f & 0xC1) | (if bc != 0 { FLAG_P } else { 0 });
        } else {
            self.block_repeat(y % 2 == 1);
            self.f = f & 0xC1;
        }
        self.advance(2);
    }

    /// `INI`.
    fn exec_ini(&mut self)
        requires
            old(self).wf(),
        ensures
            final(self)@ == ed_ini(old(self)@),
            final(self).wf(),
    {
        proof {
            reveal(ed_ini);
        }
        let hl = self.get_hl();
        let f = self.f;
        let b = dec_byte(self.b);
        let v = self.input(self.c);
        self.write_byte(hl, v);
        self.set_hl(add16(hl, 1));
        self.b = b;
        self.f = (f & 0xBD) | (if b == 0 { FLAG_Z } else { 0 }) | FLAG_N;
        self.advance(2);
    }

    /// `OUTI`.
    fn exec_outi(&mut self)
        requires
            old(self).wf(),
        ensures
            final(self)@ == ed_outi(old(self)@),
            final(self).wf(),
    {
        proof {
            reveal(ed_outi);
        }
        let hl = self.get_hl();
        let f = self.f;
        let b = dec_byte(self.b);
        let v = self.read_byte(hl);
        self.output(self.c, v);
        self.set_hl(add16(hl, 1));
        self.b = b;
        self.f = (f & 0xBD) | (if b == 0 { FLAG_Z } else { 0 }) | FLAG_N;
        self.advance(2);
    }

    /// Block transfers of the `ED` table.
    fn exec_ed_block(&mut self, op: u8) -> (r: Result<(), UnknownOpcode>)
        requires
            old(self).wf(),
        ensures
            outcome(r, old(self)@, final(self)@, ed_block(old(self)@, op)),
            final(self).wf(),
    {
        proof {
            reveal(ed_block);
        }
        let y = (op / 8) % 8;
        if op % 8 == 0 && y >= 4 {
            self.exec_ed_transfer(y);
            Ok(())
        } else if op == 0xA2 {
            self.exec_ini();
            Ok(())
        } else if op == 0xA3 {
            self.exec_outi();
            Ok(())
        } else {
            Err(UnknownOpcode { pc: self.pc, prefix: Some(0xED), opcode: op })
        }
    }

    /// `IN r,(C)`.
    fn exec_ed_in(&mut self, op: u8)
        requires
            old(self).wf(),
        ensures
            final(self)@ == ed_in(old(self)@, op),
            final(self).wf(),
    {
        proof {
            reveal(ed_in);
        }
        let y = (op / 8) % 8;
        let carry = self.f & FLAG_C != 0;
        let v = self.input(self.c);
        self.f = make_flags(v >= 0x80, v == 0, false, parity_of(v), false, carry);
        if y != 6 {
            self.set_register_by_index(y, v);
        }
        self.advance(2);
    }

    /// `OUT (C),r`.
    fn exec_ed_out(&mut self, op: u8)
        requires
            old(self).wf(),
        ensures
            final(self)@ == ed_out(old(self)@, op),
            final(self).wf(),
    {
        proof {
            reveal(ed_out);
        }
        let y = (op / 8) % 8;
        let v = if y == 6 { 0 } else { self.get_register_by_index(y) };
        self.output(self.c, v);
        self.advance(2);
    }

    /// `SBC HL,rr` and `ADC HL,rr`.
    fn exec_ed_hl16(&mut self, op: u8)
        ensures
            final(self)@ == ed_hl16(old(self)@, op),
            final(self).wf() == old(self).wf(),
    {
        proof {
            reveal(ed_hl16);
        }
        let y = (op / 8) % 8;
        let carry = self.f & FLAG_C != 0;
        let (r, f) = if y % 2 == 0 {
            sbc16(self.get_hl(), self.get_rp(y / 2), carry)
        } else {
            adc16(self.get_hl(), self.get_rp(y / 2), carry)
        };
        self.set_hl(r);
        self.f = f;
        self.advance(2);
    }

    /// `LD (nn),rr` and `LD rr,(nn)`.
    fn exec_ed_ld16(&mut self, op: u8)
        ensures
            final(self)@ == ed_ld16(old(self)@, op),
            final(self).wf() == old(self).wf(),
    {
        proof {
            reveal(ed_ld16);
        }
        let y = (op / 8) % 8;
        let a = self.imm16(2);
        if y % 2 == 0 {
            let v = self.get_rp(y / 2);
            self.write_word(a, v);
        } else {
            let v = self.read_word(a);
            self.set_rp(y / 2, v);
        }
        self.advance(4);
    }

    /// `ED`-prefixed opcodes.
    fn exec_ed(&mut self) -> (r: Result<(), UnknownOpcode>)
        requires
            old(self).wf(),
        ensures
            outcome(r, old(self)@, final(self)@, exec_ed(old(self)@)),
            final(self).wf(),
    {
        proof {
            reveal(exec_ed);
            reveal(ed_neg);
            reveal(ed_ret);
        }
        let op = self.imm8(1);
        let y = (op / 8) % 8;
        let z = op % 8;
        if op / 64 == 1 {
            if z == 0 {
                self.exec_ed_in(op);
            } else if z == 1 {
                self.exec_ed_out(op);
            } else if z == 2 {
                self.exec_ed_hl16(op);
            } else if z == 3 {
                self.exec_ed_ld16(op);
            } else if z == 4 {
                let (a, f) = sub8(0, self.a, false);
                self.a = a;
                self.f = f;
                self.advance(2);
            } else if z == 5 {
                let iff2 = self.iff2;
                self.pc = self.pop();
                self.iff1 = iff2;
            } else if z == 6 {
                self.im = match y % 4 {
                    2 => 1,
                    3 => 2,
                    _ => 0,
                };
                self.advance(2);
            } else {
                return Err(UnknownOpcode { pc: self.pc, prefix: Some(0xED), opcode: op });
            }
            Ok(())
        } else if op / 64 == 2 {
            self.exec_ed_block(op)
        } else {
            Err(UnknownOpcode { pc: self.pc, prefix: Some(0xED), opcode: op })
        }
    }

    /// Loads, increments and additions of a whole index register.
    fn exec_index_word(&mut self, iy: bool, op: u8)
        ensures
            final(self)@ == index_word(old(self)@, iy, op),
            final(self).wf() == old(self).wf(),
    {
        proof {
            reveal(index_word);
        }
        let idx = self.get_index(iy);
        if op == 0x21 {
            let v = self.imm16(2);
            self.set_index(iy, v);
            self.advance(4);
        } else if op == 0x22 {
            let a = self.imm16(2);
            self.write_word(a, idx);
            self.advance(4);
        } else if op == 0x2A {
            let v = self.read_word(self.imm16(2));
            self.set_index(iy, v);
            self.advance(4);
        } else if op == 0x23 {
            self.set_index(iy, add16(idx, 1));
            self.advance(2);
        } else if op == 0x2B {
            self.set_index(iy, sub16(idx, 1));
            self.advance(2);
        } else {
            let p = ((op / 8) % 8) / 2;
            let other = if p == 2 { idx } else { self.get_rp(p) };
            let (r, f) = add16_flags(idx, other, self.f);
            self.set_index(iy, r);
            self.f = f;
            self.advance(2);
        }
    }

    /// Increments, decrements and immediate loads of an index register half.
    fn exec_index_half(&mut self, iy: bool, op: u8)
        ensures
            final(self)@ == index_half(old(self)@, iy, op),
            final(self).wf() == old(self).wf(),
    {
        proof {
            reveal(index_half);
        }
        let idx = self.get_index(iy);
        let upper = (op / 8) % 8 == 4;
        let hi = (idx / 256) as u8;
        let lo = (idx % 256) as u8;
        if op % 8 == 6 {
            let n = self.imm8(2);
            let nv = if upper { n as u16 * 256 + lo as u16 } else { hi as u16 * 256 + n as u16 };
            self.set_index(iy, nv);
            self.advance(3);
        } else {
            let half = if upper { hi } else { lo };
            let (v, f) = if op % 8 == 4 { inc8(half, self.f) } else { dec8(half, self.f) };
            let nv = if upper { v as u16 * 256 + lo as u16 } else { hi as u16 * 256 + v as u16 };
            self.set_index(iy, nv);
            self.f = f;
            self.advance(2);
        }
    }

    /// The operand address `IX+d` or `IY+d`.
    fn indexed_address(&self, iy: bool) -> (r: u16)
        ensures
            r == self@.indexed_address(iy),
    {
        relative(self.get_index(iy), 0, self.imm8(2))
    }

    /// Operations on `(IX+d)` or `(IY+d)`.
    #[verifier::rlimit(100)]
    fn exec_index_mem(&mut self, iy: bool, op: u8)
        ensures
            final(self)@ == index_mem(old(self)@, iy, op),
            final(self).wf() == old(self).wf(),
    {
        proof {
            reveal(index_mem);
        }
        let ea = self.indexed_address(iy);
        let y = (op / 8) % 8;
        if op == 0x34 {
            let (v, f) = inc8(self.read_byte(ea), self.f);
            self.f = f;
            self.write_byte(ea, v);
            self.advance(3);
        } else if op == 0x35 {
            let (v, f) = dec8(self.read_byte(ea), self.f);
            self.f = f;
            self.write_byte(ea, v);
            self.advance(3);
        } else if op == 0x36 {
            let n = self.imm8(3);
            self.write_byte(ea, n);
            self.advance(4);
        } else if op / 64 == 1 && op % 8 == 6 {
            let v = self.read_byte(ea);
            self.set_register_by_index(y, v);
            self.advance(3);
        } else if op / 64 == 1 {
            let v = self.get_register_by_index(op % 8);
            self.write_byte(ea, v);
            self.advance(3);
        } else {
            let (a, f) = alu(y, self.a, self.f, self.read_byte(ea));
            self.a = a;
            self.f = f;
            self.advance(3);
        }
    }

    /// Stack operations and jumps through an index register.
    #[verifier::rlimit(100)]
    fn exec_index_stack(&mut self, iy: bool, op: u8)
        ensures
            final(self)@ == index_stack(old(self)@, iy, op),
            final(self).wf() == old(self).wf(),
    {
        proof {
            reveal(index_stack);
        }
        let idx = self.get_index(iy);
        if op == 0xE1 {
            let v = self.pop();
            self.set_index(iy, v);
            self.advance(2);
        } else if op == 0xE5 {
            self.push(idx);
            self.advance(2);
        } else if op == 0xE3 {
            let t = self.read_word(self.sp);
            self.write_word(self.sp, idx);
            self.set_index(iy, t);
            self.advance(2);
        } else if op == 0xE9 {
            self.pc = idx;
        } else {
            self.sp = idx;
            self.advance(2);
        }
    }

    /// `DD CB d op` and `FD CB d op`.
    fn exec_index_cb(&mut self, iy: bool) -> (r: Result<(), UnknownOpcode>)
        ensures
            outcome(r, old(self)@, final(self)@, exec_index_cb(old(self)@, iy)),
            final(self).wf() == old(self).wf(),
    {
        proof {
            reveal(exec_index_cb);
        }
        let op = self.imm8(3);
        let x = op / 64;
        let y = (op / 8) % 8;
        let ea = self.indexed_address(iy);
        let v = self.read_byte(ea);
        if x == 1 {
            self.f = bit_flags(self.f, y, v);
        } else if op % 8 != 6 {
            return Err(
                UnknownOpcode { pc: self.pc, prefix: Some(if iy { 0xFD } else { 0xDD }), opcode: op },
            );
        } else if x == 0 {
            let (r, c) = rot(y, v, self.f & FLAG_C != 0);
            self.f = make_flags(r >= 0x80, r == 0, false, parity_of(r), false, c);
            self.write_byte(ea, r);
        } else if x == 2 {
            self.write_byte(ea, v & !(1u8 << y));
        } else {
            self.write_byte(ea, v | (1u8 << y));
        }
        self.advance(4);
        Ok(())
    }

    /// `DD`/`FD`-prefixed opcodes.
    fn exec_index(&mut self, iy: bool) -> (r: Result<(), UnknownOpcode>)
        requires
            old(self).wf(),
        ensures
            outcome(r, old(self)@, final(self)@, exec_index(old(self)@, iy)),
            final(self).wf(),
    {
        proof {
            reveal(exec_index);
        }
        let op = self.imm8(1);
        let x = op / 64;
        let y = (op / 8) % 8;
        let z = op % 8;
        if op == 0x21 || op == 0x22 || op == 0x2A || op == 0x23 || op == 0x2B || (x == 0 && z == 1
            && y % 2 == 1) {
            self.exec_index_word(iy, op);
            Ok(())
        } else if op == 0x24 || op == 0x25 || op == 0x2C || op == 0x2D || op == 0x26 || op == 0x2E {
            self.exec_index_half(iy, op);
            Ok(())
        } else if op == 0x34 || op == 0x35 || op == 0x36 || (x == 1 && z == 6 && y != 6) || (x == 1
            && y == 6 && z != 6) || (x == 2 && z == 6) {
            self.exec_index_mem(iy, op);
            Ok(())
        } else if op == 0xCB {
            self.exec_index_cb(iy)
        } else if op == 0xE1 || op == 0xE5 || op == 0xE3 || op == 0xE9 || op == 0xF9 {
            self.exec_index_stack(iy, op);
            Ok(())
        } else {
            Err(UnknownOpcode { pc: self.pc, prefix: Some(if iy { 0xFD } else { 0xDD }), opcode: op })
        }
    }
}

impl Z80 {
    /// Runs the instruction whose first byte, `opcode`, is at PC.
    pub fn execute(&mut self, opcode: u8) -> (r: Result<(), UnknownOpcode>)
        requires
            old(self).wf(),
        ensures
            outcome(r, old(self)@, final(self)@, exec_op(old(self)@, opcode)),
            final(self).wf(),
    {
        match opcode / 64 {
            0 => {
                self.exec_x0(opcode);
                Ok(())
            },
            3 => self.exec_x3(opcode),
            _ => {
                self.exec_x12(opcode);
                Ok(())
            },
        }
    }

    /// One step: takes a pending interrupt when IFF1 is set, else does
    /// nothing while halted, else runs the instruction at PC. The step is
    /// counted in every case.
    pub fn execute_cycle(&mut self) -> (r: Result<(), UnknownOpcode>)
        requires
            old(self).wf(),
        ensures
            outcome(
                r,
                Z80State { cycles: next_cycles(old(self).cycles), ..old(self)@ },
                final(self)@,
                step(old(self)@),
            ),
            final(self).wf(),
    {
        if self.cycles < u64::MAX {
            self.cycles = self.cycles + 1;
        }
        if self.interrupt_request && self.iff1 {
            self.interrupt_request = false;
            self.iff1 = false;
            self.iff2 = false;
            self.halted = false;
            let pc = self.pc;
            self.push(pc);
            self.pc = 0x0038;
            return Ok(());
        }
        if self.halted {
            return Ok(());
        }
        let opcode = self.read_byte(self.pc);
        self.execute(opcode)
    }
}

} // verus!
