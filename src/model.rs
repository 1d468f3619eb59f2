//! Mathematical model of the CPU and the meaning of each instruction.
//!
//! `Z80State` is the view of a `Z80` (registers and the bus it drives).
//! The spec functions below say, for each opcode group, which state an
//! instruction leads to, or `None` where the opcode is not supported.
use vstd::prelude::*;

use crate::alu::{
    FLAG_C, FLAG_H, FLAG_N, FLAG_P, FLAG_S, FLAG_Z, adc16_spec, add16_spec, alu_spec, daa_spec,
    dec8_spec, fb, flags, inc8_spec, parity, rot_spec, sbc16_spec, sub8_spec,
};
use crate::bus::BusModel;
use crate::utils::{wrap16, wrap8};

verus! {

pub struct Z80State {
    pub a: u8,
    pub f: u8,
    pub b: u8,
    pub c: u8,
    pub d: u8,
    pub e: u8,
    pub h: u8,
    pub l: u8,
    pub a_alt: u8,
    pub f_alt: u8,
    pub b_alt: u8,
    pub c_alt: u8,
    pub d_alt: u8,
    pub e_alt: u8,
    pub h_alt: u8,
    pub l_alt: u8,
    pub sp: u16,
    pub pc: u16,
    pub ix: u16,
    pub iy: u16,
    pub iff1: bool,
    pub iff2: bool,
    pub im: u8,
    pub interrupt_request: bool,
    pub halted: bool,
    pub cycles: u64,
    pub bus: BusModel,
}

/// The 16-bit value with high byte `hi` and low byte `lo`.
pub open spec fn pair(hi: u8, lo: u8) -> u16 {
    (hi * 256 + lo) as u16
}

pub open spec fn high(v: u16) -> u8 {
    (v / 256) as u8
}

pub open spec fn low(v: u16) -> u8 {
    (v % 256) as u8
}

/// `d` read as a two's complement displacement.
pub open spec fn sext(d: u8) -> int {
    if d < 128 {
        d as int
    } else {
        d - 256
    }
}

/// The opcode fields: `x` (bits 7-6), `y` (bits 5-3), `z` (bits 2-0).
pub open spec fn op_x(op: u8) -> u8 {
    op / 64
}

pub open spec fn op_y(op: u8) -> u8 {
    (op / 8) % 8
}

pub open spec fn op_z(op: u8) -> u8 {
    op % 8
}

/// Interrupt mode that `IM` with field `y` selects.
pub open spec fn im_of(y: u8) -> u8 {
    if y % 4 == 2 {
        1
    } else if y % 4 == 3 {
        2
    } else {
        0
    }
}

impl Z80State {
    pub open spec fn wf(self) -> bool {
        self.bus.wf()
    }

    pub open spec fn af(self) -> u16 {
        pair(self.a, self.f)
    }

    pub open spec fn bc(self) -> u16 {
        pair(self.b, self.c)
    }

    pub open spec fn de(self) -> u16 {
        pair(self.d, self.e)
    }

    pub open spec fn hl(self) -> u16 {
        pair(self.h, self.l)
    }

    pub open spec fn with_af(self, v: u16) -> Z80State {
        Z80State { a: high(v), f: low(v), ..self }
    }

    pub open spec fn with_bc(self, v: u16) -> Z80State {
        Z80State { b: high(v), c: low(v), ..self }
    }

    pub open spec fn with_de(self, v: u16) -> Z80State {
        Z80State { d: high(v), e: low(v), ..self }
    }

    pub open spec fn with_hl(self, v: u16) -> Z80State {
        Z80State { h: high(v), l: low(v), ..self }
    }

    pub open spec fn with_f(self, f: u8) -> Z80State {
        Z80State { f, ..self }
    }

    pub open spec fn with_a(self, a: u8) -> Z80State {
        Z80State { a, ..self }
    }

    pub open spec fn at(self, pc: u16) -> Z80State {
        Z80State { pc, ..self }
    }

    /// PC moved past an instruction of `n` bytes.
    pub open spec fn advance(self, n: int) -> Z80State {
        self.at(wrap16(self.pc + n))
    }

    /// The byte `i` places after PC.
    pub open spec fn imm8(self, i: int) -> u8 {
        self.bus.mem(wrap16(self.pc + i))
    }

    /// The little-endian word `i` places after PC.
    pub open spec fn imm16(self, i: int) -> u16 {
        self.bus.word(wrap16(self.pc + i))
    }

    pub open spec fn write_mem(self, address: u16, v: u8) -> Z80State {
        Z80State { bus: self.bus.write(address, v), ..self }
    }

    pub open spec fn write_word(self, address: u16, v: u16) -> Z80State {
        Z80State { bus: self.bus.write_word(address, v), ..self }
    }

    /// Register `r` in the order B C D E H L (HL) A.
    pub open spec fn reg8(self, r: u8) -> u8 {
        if r == 0 {
            self.b
        } else if r == 1 {
            self.c
        } else if r == 2 {
            self.d
        } else if r == 3 {
            self.e
        } else if r == 4 {
            self.h
        } else if r == 5 {
            self.l
        } else if r == 6 {
            self.bus.mem(self.hl())
        } else {
            self.a
        }
    }

    pub open spec fn set_reg8(self, r: u8, v: u8) -> Z80State {
        if r == 0 {
            Z80State { b: v, ..self }
        } else if r == 1 {
            Z80State { c: v, ..self }
        } else if r == 2 {
            Z80State { d: v, ..self }
        } else if r == 3 {
            Z80State { e: v, ..self }
        } else if r == 4 {
            Z80State { h: v, ..self }
        } else if r == 5 {
            Z80State { l: v, ..self }
        } else if r == 6 {
            self.write_mem(self.hl(), v)
        } else {
            Z80State { a: v, ..self }
        }
    }

    /// Register pair `p` in the order BC DE HL SP.
    pub open spec fn rp(self, p: u8) -> u16 {
        if p == 0 {
            self.bc()
        } else if p == 1 {
            self.de()
        } else if p == 2 {
            self.hl()
        } else {
            self.sp
        }
    }

    pub open spec fn set_rp(self, p: u8, v: u16) -> Z80State {
        if p == 0 {
            self.with_bc(v)
        } else if p == 1 {
            self.with_de(v)
        } else if p == 2 {
            self.with_hl(v)
        } else {
            Z80State { sp: v, ..self }
        }
    }

    /// Register pair `p` in the order BC DE HL AF.
    pub open spec fn rp2(self, p: u8) -> u16 {
        if p == 3 {
            self.af()
        } else {
            self.rp(p)
        }
    }

    pub open spec fn set_rp2(self, p: u8, v: u16) -> Z80State {
        if p == 3 {
            self.with_af(v)
        } else {
            self.set_rp(p, v)
        }
    }

    /// Push: SP drops by two, then the word is stored little-endian at SP.
    pub open spec fn push(self, v: u16) -> Z80State {
        let sp = wrap16(self.sp - 2);
        Z80State { sp, bus: self.bus.write_word(sp, v), ..self }
    }

    /// Pop: the word at SP, and the state with SP two higher.
    pub open spec fn pop(self) -> (Z80State, u16) {
        (Z80State { sp: wrap16(self.sp + 2), ..self }, self.bus.word(self.sp))
    }

    /// Condition `y` in the order NZ Z NC C PO PE P M.
    pub open spec fn cond(self, y: u8) -> bool {
        if y == 0 {
            self.f & FLAG_Z == 0
        } else if y == 1 {
            self.f & FLAG_Z != 0
        } else if y == 2 {
            self.f & FLAG_C == 0
        } else if y == 3 {
            self.f & FLAG_C != 0
        } else if y == 4 {
            self.f & FLAG_P == 0
        } else if y == 5 {
            self.f & FLAG_P != 0
        } else if y == 6 {
            self.f & FLAG_S == 0
        } else {
            self.f & FLAG_S != 0
        }
    }

    pub open spec fn carry(self) -> bool {
        self.f & FLAG_C != 0
    }

    /// PC after a relative jump whose displacement is the byte after the opcode.
    pub open spec fn jr_target(self) -> u16 {
        wrap16(self.pc + 2 + sext(self.imm8(1)))
    }

    pub open spec fn index(self, iy: bool) -> u16 {
        if iy {
            self.iy
        } else {
            self.ix
        }
    }

    pub open spec fn with_index(self, iy: bool, v: u16) -> Z80State {
        if iy {
            Z80State { iy: v, ..self }
        } else {
            Z80State { ix: v, ..self }
        }
    }

    /// Register pair `p` with HL replaced by the index register.
    pub open spec fn rp_indexed(self, p: u8, iy: bool) -> u16 {
        if p == 2 {
            self.index(iy)
        } else {
            self.rp(p)
        }
    }

    /// The operand address `IX+d` or `IY+d`, `d` being the byte after the
    /// second opcode byte.
    pub open spec fn indexed_address(self, iy: bool) -> u16 {
        wrap16(self.index(iy) + sext(self.imm8(2)))
    }

    /// An I/O read: the state afterwards and the byte read.
    pub open spec fn input(self, port: u8) -> (Z80State, u8) {
        (Z80State { bus: self.bus.input(port).0, ..self }, self.bus.input(port).1)
    }

    pub open spec fn output(self, port: u8, v: u8) -> Z80State {
        Z80State { bus: self.bus.output(port, v), ..self }
    }

    /// One step of a block transfer: (DE) <- (HL), HL and DE move by `step`,
    /// BC drops by one.
    pub open spec fn block_move(self, step: int) -> Z80State {
        self.write_mem(self.de(), self.bus.mem(self.hl())).with_hl(wrap16(self.hl() + step)).with_de(
            wrap16(self.de() + step),
        ).with_bc(wrap16(self.bc() - 1))
    }

    /// `n` block transfer steps.
    pub open spec fn block_repeat(self, step: int, n: nat) -> Z80State
        decreases n,
    {
        if n == 0 {
            self
        } else {
            self.block_repeat(step, (n - 1) as nat).block_move(step)
        }
    }

    /// The state after an interrupt is accepted.
    pub open spec fn accept_interrupt(self) -> Z80State {
        Z80State {
            iff1: false,
            iff2: false,
            interrupt_request: false,
            halted: false,
            ..self.push(self.pc)
        }.at(0x0038)
    }

    /// Flags after `LDI`/`LDD`: H and N clear, P/V set while BC is not zero.
    pub open spec fn ldi_flags(f: u8, bc: u16) -> u8 {
        (f & 0xC1) | fb(bc != 0, FLAG_P)
    }

    /// Flags after `INI`/`OUTI`: Z set when B reached zero, N set.
    pub open spec fn io_block_flags(f: u8, b: u8) -> u8 {
        (f & 0xBD) | fb(b == 0, FLAG_Z) | FLAG_N
    }
}

/// Opcodes with `x == 0`.
pub open spec fn exec_x0(s: Z80State, op: u8) -> Option<Z80State> {
    let y = op_y(op);
    let z = op_z(op);
    let p = y / 2;
    let q = y % 2;
    if z == 0 {
        if y == 0 {
            Some(s.advance(1))
        } else if y == 1 {
            Some(Z80State { a: s.a_alt, f: s.f_alt, a_alt: s.a, f_alt: s.f, ..s }.advance(1))
        } else if y == 2 {
            let b = wrap8(s.b - 1);
            if b != 0 {
                Some(Z80State { b, ..s }.at(s.jr_target()))
            } else {
                Some(Z80State { b, ..s }.advance(2))
            }
        } else if y == 3 || s.cond((y - 4) as u8) {
            Some(s.at(s.jr_target()))
        } else {
            Some(s.advance(2))
        }
    } else if z == 1 {
        if q == 0 {
            Some(s.set_rp(p, s.imm16(1)).advance(3))
        } else {
            let (r, f) = add16_spec(s.hl(), s.rp(p), s.f);
            Some(s.with_hl(r).with_f(f).advance(1))
        }
    } else if z == 2 {
        if q == 0 {
            if p == 0 {
                Some(s.write_mem(s.bc(), s.a).advance(1))
            } else if p == 1 {
                Some(s.write_mem(s.de(), s.a).advance(1))
            } else if p == 2 {
                Some(s.write_word(s.imm16(1), s.hl()).advance(3))
            } else {
                Some(s.write_mem(s.imm16(1), s.a).advance(3))
            }
        } else {
            if p == 0 {
                Some(s.with_a(s.bus.mem(s.bc())).advance(1))
            } else if p == 1 {
                Some(s.with_a(s.bus.mem(s.de())).advance(1))
            } else if p == 2 {
                Some(s.with_hl(s.bus.word(s.imm16(1))).advance(3))
            } else {
                Some(s.with_a(s.bus.mem(s.imm16(1))).advance(3))
            }
        }
    } else if z == 3 {
        if q == 0 {
            Some(s.set_rp(p, wrap16(s.rp(p) + 1)).advance(1))
        } else {
            Some(s.set_rp(p, wrap16(s.rp(p) - 1)).advance(1))
        }
    } else if z == 4 {
        let (v, f) = inc8_spec(s.reg8(y), s.f);
        Some(s.with_f(f).set_reg8(y, v).advance(1))
    } else if z == 5 {
        let (v, f) = dec8_spec(s.reg8(y), s.f);
        Some(s.with_f(f).set_reg8(y, v).advance(1))
    } else if z == 6 {
        Some(s.set_reg8(y, s.imm8(1)).advance(2))
    } else {
        if y < 4 {
            let (v, c) = rot_spec(y, s.a, s.carry());
            Some(s.with_a(v).with_f((s.f & 0xC4) | fb(c, FLAG_C)).advance(1))
        } else if y == 4 {
            let (v, f) = daa_spec(s.a, s.f);
            Some(s.with_a(v).with_f(f).advance(1))
        } else if y == 5 {
            Some(s.with_a(s.a ^ 0xFF).with_f(s.f | 0x12).advance(1))
        } else if y == 6 {
            Some(s.with_f((s.f & 0xC4) | FLAG_C).advance(1))
        } else {
            Some(s.with_f((s.f & 0xC4) | fb(s.carry(), FLAG_H) | fb(!s.carry(), FLAG_C)).advance(1))
        }
    }
}

/// Opcodes with `x == 1` (loads between registers, and `HALT`) and `x == 2`
/// (accumulator operations on a register).
pub open spec fn exec_x12(s: Z80State, op: u8) -> Z80State {
    if op == 0x76 {
        Z80State { halted: true, ..s }.advance(1)
    } else if op_x(op) == 1 {
        s.set_reg8(op_y(op), s.reg8(op_z(op))).advance(1)
    } else {
        let (a, f) = alu_spec(op_y(op), s.a, s.f, s.reg8(op_z(op)));
        s.with_a(a).with_f(f).advance(1)
    }
}

/// `CB`-prefixed opcodes: rotates and shifts, `BIT`, `RES`, `SET`.
#[verifier::opaque]
pub open spec fn exec_cb(s: Z80State) -> Z80State {
    let op = s.imm8(1);
    let x = op_x(op);
    let y = op_y(op);
    let z = op_z(op);
    let v = s.reg8(z);
    if x == 0 {
        let (r, c) = rot_spec(y, v, s.carry());
        s.with_f(flags(r >= 0x80, r == 0, false, parity(r), false, c)).set_reg8(z, r).advance(2)
    } else if x == 1 {
        s.with_f(bit_flags(s.f, y, v)).advance(2)
    } else if x == 2 {
        s.set_reg8(z, v & !(1u8 << y)).advance(2)
    } else {
        s.set_reg8(z, v | (1u8 << y)).advance(2)
    }
}

/// Flags after `BIT y` on `v`: Z and P/V tell that the bit is clear, S that
/// bit 7 was tested and is set, H set, N clear, C kept.
pub open spec fn bit_flags(f: u8, y: u8, v: u8) -> u8 {
    let set = (v >> y) & 1 == 1;
    (f & FLAG_C) | fb(y == 7 && set, FLAG_S) | fb(!set, FLAG_Z) | FLAG_H | fb(!set, FLAG_P)
}

/// `ED`-prefixed opcodes.
#[verifier::opaque]
pub open spec fn exec_ed(s: Z80State) -> Option<Z80State> {
    let op = s.imm8(1);
    let z = op_z(op);
    if op_x(op) == 1 {
        if z == 0 {
            Some(ed_in(s, op))
        } else if z == 1 {
            Some(ed_out(s, op))
        } else if z == 2 {
            Some(ed_hl16(s, op))
        } else if z == 3 {
            Some(ed_ld16(s, op))
        } else if z == 4 {
            Some(ed_neg(s))
        } else if z == 5 {
            Some(ed_ret(s))
        } else if z == 6 {
            Some(Z80State { im: im_of(op_y(op)), ..s }.advance(2))
        } else {
            None
        }
    } else if op_x(op) == 2 {
        ed_block(s, op)
    } else {
        None
    }
}

/// `IN r,(C)`; field `y == 6` sets the flags only.
#[verifier::opaque]
pub open spec fn ed_in(s: Z80State, op: u8) -> Z80State {
    let y = op_y(op);
    let (t, v) = s.input(s.c);
    let f = flags(v >= 0x80, v == 0, false, parity(v), false, s.carry());
    if y == 6 {
        t.with_f(f).advance(2)
    } else {
        t.with_f(f).set_reg8(y, v).advance(2)
    }
}

/// `OUT (C),r`; field `y == 6` sends zero.
#[verifier::opaque]
pub open spec fn ed_out(s: Z80State, op: u8) -> Z80State {
    let y = op_y(op);
    s.output(s.c, if y == 6 { 0 } else { s.reg8(y) }).advance(2)
}

/// `SBC HL,rr` and `ADC HL,rr`.
#[verifier::opaque]
pub open spec fn ed_hl16(s: Z80State, op: u8) -> Z80State {
    let y = op_y(op);
    let (r, f) = if y % 2 == 0 {
        sbc16_spec(s.hl(), s.rp(y / 2), s.carry())
    } else {
        adc16_spec(s.hl(), s.rp(y / 2), s.carry())
    };
    s.with_hl(r).with_f(f).advance(2)
}

/// `LD (nn),rr` and `LD rr,(nn)`.
#[verifier::opaque]
pub open spec fn ed_ld16(s: Z80State, op: u8) -> Z80State {
    let y = op_y(op);
    if y % 2 == 0 {
        s.write_word(s.imm16(2), s.rp(y / 2)).advance(4)
    } else {
        s.set_rp(y / 2, s.bus.word(s.imm16(2))).advance(4)
    }
}

/// `NEG`.
#[verifier::opaque]
pub open spec fn ed_neg(s: Z80State) -> Z80State {
    let (a, f) = sub8_spec(0, s.a, false);
    s.with_a(a).with_f(f).advance(2)
}

/// `RETN` and `RETI`: return, IFF1 restored from IFF2.
#[verifier::opaque]
pub open spec fn ed_ret(s: Z80State) -> Z80State {
    let (t, v) = s.pop();
    Z80State { iff1: s.iff2, ..t }.at(v)
}

/// Block transfers: `LDI LDD LDIR LDDR INI OUTI`.
#[verifier::opaque]
pub open spec fn ed_block(s: Z80State, op: u8) -> Option<Z80State> {
    if op_z(op) == 0 && op_y(op) >= 4 {
        Some(ed_transfer(s, op_y(op)))
    } else if op == 0xA2 {
        Some(ed_ini(s))
    } else if op == 0xA3 {
        Some(ed_outi(s))
    } else {
        None
    }
}

/// `LDI` (`y == 4`), `LDD` (5), `LDIR` (6), `LDDR` (7).
#[verifier::opaque]
pub open spec fn ed_transfer(s: Z80State, y: u8) -> Z80State {
    let step = if y % 2 == 0 { 1int } else { -1int };
    if y / 2 == 2 {
        let t = s.block_move(step);
        t.with_f(Z80State::ldi_flags(s.f, t.bc())).advance(2)
    } else {
        let t = s.block_repeat(step, s.bc() as nat);
        t.with_f(s.f & 0xC1).advance(2)
    }
}

/// `INI`: (HL) <- port C, HL up, B down.
#[verifier::opaque]
pub open spec fn ed_ini(s: Z80State) -> Z80State {
    let (t, v) = s.input(s.c);
    let b = wrap8(s.b - 1);
    Z80State { b, ..t.write_mem(s.hl(), v).with_hl(wrap16(s.hl() + 1)) }.with_f(
        Z80State::io_block_flags(s.f, b),
    ).advance(2)
}

/// `OUTI`: port C <- (HL), HL up, B down.
#[verifier::opaque]
pub open spec fn ed_outi(s: Z80State) -> Z80State {
    let v = s.bus.mem(s.hl());
    let b = wrap8(s.b - 1);
    Z80State { b, ..s.output(s.c, v).with_hl(wrap16(s.hl() + 1)) }.with_f(
        Z80State::io_block_flags(s.f, b),
    ).advance(2)
}

/// `DD`/`FD`-prefixed opcodes, on IX (`iy` false) or IY (`iy` true).
#[verifier::opaque]
pub open spec fn exec_index(s: Z80State, iy: bool) -> Option<Z80State> {
    let op = s.imm8(1);
    let x = op_x(op);
    let y = op_y(op);
    let z = op_z(op);
    if op == 0x21 || op == 0x22 || op == 0x2A || op == 0x23 || op == 0x2B || (x == 0 && z == 1 && y
        % 2 == 1) {
        Some(index_word(s, iy, op))
    } else if op == 0x24 || op == 0x25 || op == 0x2C || op == 0x2D || op == 0x26 || op == 0x2E {
        Some(index_half(s, iy, op))
    } else if op == 0x34 || op == 0x35 || op == 0x36 || (x == 1 && z == 6 && y != 6) || (x == 1 && y
        == 6 && z != 6) || (x == 2 && z == 6) {
        Some(index_mem(s, iy, op))
    } else if op == 0xCB {
        exec_index_cb(s, iy)
    } else if op == 0xE1 || op == 0xE5 || op == 0xE3 || op == 0xE9 || op == 0xF9 {
        Some(index_stack(s, iy, op))
    } else {
        None
    }
}

/// Loads, increments and additions of a whole index register.
#[verifier::opaque]
pub open spec fn index_word(s: Z80State, iy: bool, op: u8) -> Z80State {
    let idx = s.index(iy);
    if op == 0x21 {
        s.with_index(iy, s.imm16(2)).advance(4)
    } else if op == 0x22 {
        s.write_word(s.imm16(2), idx).advance(4)
    } else if op == 0x2A {
        s.with_index(iy, s.bus.word(s.imm16(2))).advance(4)
    } else if op == 0x23 {
        s.with_index(iy, wrap16(idx + 1)).advance(2)
    } else if op == 0x2B {
        s.with_index(iy, wrap16(idx - 1)).advance(2)
    } else {
        let (r, f) = add16_spec(idx, s.rp_indexed(op_y(op) / 2, iy), s.f);
        s.with_index(iy, r).with_f(f).advance(2)
    }
}

/// Increments, decrements and immediate loads of an index register half.
#[verifier::opaque]
pub open spec fn index_half(s: Z80State, iy: bool, op: u8) -> Z80State {
    let idx = s.index(iy);
    let upper = op_y(op) == 4;
    if op_z(op) == 6 {
        let nv = if upper { pair(s.imm8(2), low(idx)) } else { pair(high(idx), s.imm8(2)) };
        s.with_index(iy, nv).advance(3)
    } else {
        let half = if upper { high(idx) } else { low(idx) };
        let (v, f) = if op_z(op) == 4 { inc8_spec(half, s.f) } else { dec8_spec(half, s.f) };
        let nv = if upper { pair(v, low(idx)) } else { pair(high(idx), v) };
        s.with_index(iy, nv).with_f(f).advance(2)
    }
}

/// Operations on `(IX+d)` or `(IY+d)`.
#[verifier::opaque]
pub open spec fn index_mem(s: Z80State, iy: bool, op: u8) -> Z80State {
    let ea = s.indexed_address(iy);
    let y = op_y(op);
    if op == 0x34 {
        let (v, f) = inc8_spec(s.bus.mem(ea), s.f);
        s.with_f(f).write_mem(ea, v).advance(3)
    } else if op == 0x35 {
        let (v, f) = dec8_spec(s.bus.mem(ea), s.f);
        s.with_f(f).write_mem(ea, v).advance(3)
    } else if op == 0x36 {
        s.write_mem(ea, s.imm8(3)).advance(4)
    } else if op_x(op) == 1 && op_z(op) == 6 {
        s.set_reg8(y, s.bus.mem(ea)).advance(3)
    } else if op_x(op) == 1 {
        s.write_mem(ea, s.reg8(op_z(op))).advance(3)
    } else {
        let (a, f) = alu_spec(y, s.a, s.f, s.bus.mem(ea));
        s.with_a(a).with_f(f).advance(3)
    }
}

/// Stack operations and jumps through an index register.
#[verifier::opaque]
pub open spec fn index_stack(s: Z80State, iy: bool, op: u8) -> Z80State {
    let idx = s.index(iy);
    if op == 0xE1 {
        let (t, v) = s.pop();
        t.with_index(iy, v).advance(2)
    } else if op == 0xE5 {
        s.push(idx).advance(2)
    } else if op == 0xE3 {
        s.write_word(s.sp, idx).with_index(iy, s.bus.word(s.sp)).advance(2)
    } else if op == 0xE9 {
        s.at(idx)
    } else {
        Z80State { sp: idx, ..s }.advance(2)
    }
}

/// `DD CB d op` and `FD CB d op`: bit operations on `(IX+d)` or `(IY+d)`.
#[verifier::opaque]
pub open spec fn exec_index_cb(s: Z80State, iy: bool) -> Option<Z80State> {
    let op = s.imm8(3);
    let x = op_x(op);
    let y = op_y(op);
    let ea = s.indexed_address(iy);
    let v = s.bus.mem(ea);
    if x == 1 {
        Some(s.with_f(bit_flags(s.f, y, v)).advance(4))
    } else if op_z(op) != 6 {
        None
    } else if x == 0 {
        let (r, c) = rot_spec(y, v, s.carry());
        Some(s.with_f(flags(r >= 0x80, r == 0, false, parity(r), false, c)).write_mem(ea, r).advance(4))
    } else if x == 2 {
        Some(s.write_mem(ea, v & !(1u8 << y)).advance(4))
    } else {
        Some(s.write_mem(ea, v | (1u8 << y)).advance(4))
    }
}

/// Opcodes with `x == 3`.
pub open spec fn exec_x3(s: Z80State, op: u8) -> Option<Z80State> {
    let y = op_y(op);
    let z = op_z(op);
    if z == 0 || z == 1 {
        Some(x3_pop(s, op))
    } else if z == 2 || z == 3 {
        Some(x3_jump(s, op))
    } else if z == 4 || (z == 5 && y == 1) {
        Some(x3_call(s, op))
    } else if z == 5 {
        if y % 2 == 0 {
            Some(s.push(s.rp2(y / 2)).advance(1))
        } else if y == 3 {
            exec_index(s, false)
        } else if y == 5 {
            exec_ed(s)
        } else {
            exec_index(s, true)
        }
    } else if z == 6 {
        let (a, f) = alu_spec(y, s.a, s.f, s.imm8(1));
        Some(s.with_a(a).with_f(f).advance(2))
    } else {
        Some(s.push(wrap16(s.pc + 1)).at((y * 8) as u16))
    }
}

/// Returns, pops, `EXX`, `JP (HL)`, `LD SP,HL` (`z` 0 or 1).
#[verifier::opaque]
pub open spec fn x3_pop(s: Z80State, op: u8) -> Z80State {
    let y = op_y(op);
    let p = y / 2;
    if op_z(op) == 0 {
        if s.cond(y) {
            let (t, v) = s.pop();
            t.at(v)
        } else {
            s.advance(1)
        }
    } else if y % 2 == 0 {
        let (t, v) = s.pop();
        t.set_rp2(p, v).advance(1)
    } else if p == 0 {
        let (t, v) = s.pop();
        t.at(v)
    } else if p == 1 {
        Z80State {
            b: s.b_alt,
            c: s.c_alt,
            d: s.d_alt,
            e: s.e_alt,
            h: s.h_alt,
            l: s.l_alt,
            b_alt: s.b,
            c_alt: s.c,
            d_alt: s.d,
            e_alt: s.e,
            h_alt: s.h,
            l_alt: s.l,
            ..s
        }.advance(1)
    } else if p == 2 {
        s.at(s.hl())
    } else {
        Z80State { sp: s.hl(), ..s }.advance(1)
    }
}

/// Jumps, the `CB` table, port transfers, exchanges, `DI`, `EI` (`z` 2 or 3).
#[verifier::opaque]
pub open spec fn x3_jump(s: Z80State, op: u8) -> Z80State {
    let y = op_y(op);
    if op_z(op) == 2 {
        if s.cond(y) {
            s.at(s.imm16(1))
        } else {
            s.advance(3)
        }
    } else if y == 0 {
        s.at(s.imm16(1))
    } else if y == 1 {
        exec_cb(s)
    } else if y == 2 {
        s.output(s.imm8(1), s.a).advance(2)
    } else if y == 3 {
        let (t, v) = s.input(s.imm8(1));
        t.with_a(v).advance(2)
    } else if y == 4 {
        s.write_word(s.sp, s.hl()).with_hl(s.bus.word(s.sp)).advance(1)
    } else if y == 5 {
        s.with_hl(s.de()).with_de(s.hl()).advance(1)
    } else if y == 6 {
        Z80State { iff1: false, iff2: false, ..s }.advance(1)
    } else {
        Z80State { iff1: true, iff2: true, ..s }.advance(1)
    }
}

/// `CALL cc,nn` and `CALL nn`.
#[verifier::opaque]
pub open spec fn x3_call(s: Z80State, op: u8) -> Z80State {
    if op_z(op) == 5 || s.cond(op_y(op)) {
        s.push(wrap16(s.pc + 3)).at(s.imm16(1))
    } else {
        s.advance(3)
    }
}

/// The instruction `op`, whose first byte is at PC.
pub open spec fn exec_op(s: Z80State, op: u8) -> Option<Z80State> {
    let x = op_x(op);
    if x == 0 {
        exec_x0(s, op)
    } else if x == 3 {
        exec_x3(s, op)
    } else {
        Some(exec_x12(s, op))
    }
}

/// The instruction counter after one more step; it stops at its maximum.
pub open spec fn next_cycles(c: u64) -> u64 {
    if c < u64::MAX {
        (c + 1) as u64
    } else {
        c
    }
}

/// One step: count it; take a pending interrupt if enabled; else stay put
/// while halted; else run the instruction at PC.
pub open spec fn step(s: Z80State) -> Option<Z80State> {
    let t = Z80State { cycles: next_cycles(s.cycles), ..s };
    if s.interrupt_request && s.iff1 {
        Some(t.accept_interrupt())
    } else if s.halted {
        Some(t)
    } else {
        exec_op(t, t.bus.mem(t.pc))
    }
}

} // verus!
