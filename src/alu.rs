//! Arithmetic and logic primitives of the CPU, with the flags they produce.
//!
//! Each primitive returns the result and the complete new flag byte.
//! Flag bits: 7 sign, 6 zero, 4 half carry, 2 parity/overflow, 1 subtract,
//! 0 carry; bits 5 and 3 are kept zero.
use vstd::prelude::*;

verus! {

pub const FLAG_S: u8 = 0x80;
pub const FLAG_Z: u8 = 0x40;
pub const FLAG_H: u8 = 0x10;
pub const FLAG_P: u8 = 0x04;
pub const FLAG_N: u8 = 0x02;
pub const FLAG_C: u8 = 0x01;

/// `mask` if `b`, else zero.
pub open spec fn fb(b: bool, mask: u8) -> u8 {
    if b {
        mask
    } else {
        0
    }
}

/// The flag byte with the six named flags as given.
pub open spec fn flags(s: bool, z: bool, h: bool, pv: bool, n: bool, c: bool) -> u8 {
    fb(s, 0x80) | fb(z, 0x40) | fb(h, 0x10) | fb(pv, 0x04) | fb(n, 0x02) | fb(c, 0x01)
}

/// Number of one bits of `x`.
pub open spec fn popcount(x: u8) -> nat
    decreases x,
{
    if x == 0 {
        0
    } else {
        (x % 2) as nat + popcount(x / 2)
    }
}

/// Even parity: an even number of one bits.
pub open spec fn parity(x: u8) -> bool {
    popcount(x) % 2 == 0
}

/// Each flag of a composed flag byte reads back as it was given.
pub proof fn lemma_flags(s: bool, z: bool, h: bool, pv: bool, n: bool, c: bool)
    ensures
        (flags(s, z, h, pv, n, c) & FLAG_S != 0) == s,
        (flags(s, z, h, pv, n, c) & FLAG_Z != 0) == z,
        (flags(s, z, h, pv, n, c) & FLAG_H != 0) == h,
        (flags(s, z, h, pv, n, c) & FLAG_P != 0) == pv,
        (flags(s, z, h, pv, n, c) & FLAG_N != 0) == n,
        (flags(s, z, h, pv, n, c) & FLAG_C != 0) == c,
{
    let vs = fb(s, 0x80);
    let vz = fb(z, 0x40);
    let vh = fb(h, 0x10);
    let vp = fb(pv, 0x04);
    let vn = fb(n, 0x02);
    let vc = fb(c, 0x01);
    assert({
        let f = vs | vz | vh | vp | vn | vc;
        &&& (f & 0x80 != 0) == (vs == 0x80)
        &&& (f & 0x40 != 0) == (vz == 0x40)
        &&& (f & 0x10 != 0) == (vh == 0x10)
        &&& (f & 0x04 != 0) == (vp == 0x04)
        &&& (f & 0x02 != 0) == (vn == 0x02)
        &&& (f & 0x01 != 0) == (vc == 0x01)
    }) by (bit_vector)
        requires
            vs == 0 || vs == 0x80,
            vz == 0 || vz == 0x40,
            vh == 0 || vh == 0x10,
            vp == 0 || vp == 0x04,
            vn == 0 || vn == 0x02,
            vc == 0 || vc == 0x01,
    ;
}

/// Flag byte from the six flags.
pub fn make_flags(s: bool, z: bool, h: bool, pv: bool, n: bool, c: bool) -> (r: u8)
    ensures
        r == flags(s, z, h, pv, n, c),
{
    (if s { 0x80u8 } else { 0 }) | (if z { 0x40u8 } else { 0 }) | (if h { 0x10u8 } else { 0 }) | (
    if pv { 0x04u8 } else { 0 }) | (if n { 0x02u8 } else { 0 }) | (if c { 0x01u8 } else { 0 })
}

/// Even parity of `x`.
pub fn parity_of(x: u8) -> (r: bool)
    ensures
        r == parity(x),
{
    let mut v: u8 = x;
    let mut count: u8 = 0;
    proof {
        lemma_popcount_bound(x);
    }
    while v != 0
        invariant
            count + popcount(v) == popcount(x),
            popcount(x) <= x,
        decreases v,
    {
        count = count + v % 2;
        v = v / 2;
    }
    count % 2 == 0
}

/// A byte has no more one bits than its value.
proof fn lemma_popcount_bound(x: u8)
    ensures
        popcount(x) <= x,
    decreases x,
{
    if x != 0 {
        lemma_popcount_bound(x / 2);
    }
}

pub open spec fn bit(b: bool) -> int {
    if b {
        1
    } else {
        0
    }
}

/// `ADD`/`ADC`: result and flags of `a + n + carry`.
pub open spec fn add8_spec(a: u8, n: u8, carry: bool) -> (u8, u8) {
    let sum = a + n + bit(carry);
    let r = (sum % 256) as u8;
    (
        r,
        flags(
            r >= 0x80,
            r == 0,
            a % 16 + n % 16 + bit(carry) > 15,
            (a ^ r) & !(a ^ n) & 0x80 != 0,
            false,
            sum > 255,
        ),
    )
}

/// `SUB`/`SBC`/`CP`: result and flags of `a - n - carry`.
pub open spec fn sub8_spec(a: u8, n: u8, carry: bool) -> (u8, u8) {
    let diff = a - n - bit(carry);
    let r = ((diff + 256) % 256) as u8;
    (
        r,
        flags(
            r >= 0x80,
            r == 0,
            a % 16 < n % 16 + bit(carry),
            (a ^ n) & (a ^ r) & 0x80 != 0,
            true,
            a < n + bit(carry),
        ),
    )
}

pub fn add8(a: u8, n: u8, carry: bool) -> (r: (u8, u8))
    ensures
        r == add8_spec(a, n, carry),
{
    let cin: u16 = if carry { 1 } else { 0 };
    let sum: u16 = a as u16 + n as u16 + cin;
    let r = (sum % 256) as u8;
    let f = make_flags(
        r >= 0x80,
        r == 0,
        (a % 16) as u16 + (n % 16) as u16 + cin > 15,
        (a ^ r) & !(a ^ n) & 0x80 != 0,
        false,
        sum > 255,
    );
    (r, f)
}

pub fn sub8(a: u8, n: u8, carry: bool) -> (r: (u8, u8))
    ensures
        r == sub8_spec(a, n, carry),
{
    let cin: u16 = if carry { 1 } else { 0 };
    let r = ((a as u16 + 256 - n as u16 - cin) % 256) as u8;
    let f = make_flags(
        r >= 0x80,
        r == 0,
        ((a % 16) as u16) < (n % 16) as u16 + cin,
        (a ^ n) & (a ^ r) & 0x80 != 0,
        true,
        (a as u16) < n as u16 + cin,
    );
    (r, f)
}

/// Flags of a logical operation with result `r`.
pub open spec fn logic_flags(r: u8, h: bool) -> u8 {
    flags(r >= 0x80, r == 0, h, parity(r), false, false)
}

fn logic_flags_of(r: u8, h: bool) -> (f: u8)
    ensures
        f == logic_flags(r, h),
{
    make_flags(r >= 0x80, r == 0, h, parity_of(r), false, false)
}

/// The eight accumulator operations `ADD ADC SUB SBC AND XOR OR CP`,
/// selected by `op`: the new accumulator and the new flags.
pub open spec fn alu_spec(op: u8, a: u8, f: u8, n: u8) -> (u8, u8) {
    let carry = f & FLAG_C != 0;
    if op == 0 {
        add8_spec(a, n, false)
    } else if op == 1 {
        add8_spec(a, n, carry)
    } else if op == 2 {
        sub8_spec(a, n, false)
    } else if op == 3 {
        sub8_spec(a, n, carry)
    } else if op == 4 {
        (a & n, logic_flags(a & n, true))
    } else if op == 5 {
        (a ^ n, logic_flags(a ^ n, false))
    } else if op == 6 {
        (a | n, logic_flags(a | n, false))
    } else {
        (a, sub8_spec(a, n, false).1)
    }
}

pub fn alu(op: u8, a: u8, f: u8, n: u8) -> (r: (u8, u8))
    ensures
        r == alu_spec(op, a, f, n),
{
    let carry = f & FLAG_C != 0;
    match op {
        0 => add8(a, n, false),
        1 => add8(a, n, carry),
        2 => sub8(a, n, false),
        3 => sub8(a, n, carry),
        4 => (a & n, logic_flags_of(a & n, true)),
        5 => (a ^ n, logic_flags_of(a ^ n, false)),
        6 => (a | n, logic_flags_of(a | n, false)),
        _ => (a, sub8(a, n, false).1),
    }
}

/// `INC`: result and flags; carry is kept from `f`.
pub open spec fn inc8_spec(v: u8, f: u8) -> (u8, u8) {
    let r = ((v + 1) % 256) as u8;
    (r, flags(r >= 0x80, r == 0, r % 16 == 0, r == 0x80, false, f & FLAG_C != 0))
}

/// `DEC`: result and flags; carry is kept from `f`.
pub open spec fn dec8_spec(v: u8, f: u8) -> (u8, u8) {
    let r = ((v + 255) % 256) as u8;
    (r, flags(r >= 0x80, r == 0, v % 16 == 0, v == 0x80, true, f & FLAG_C != 0))
}

pub fn inc8(v: u8, f: u8) -> (r: (u8, u8))
    ensures
        r == inc8_spec(v, f),
{
    let r = ((v as u16 + 1) % 256) as u8;
    (r, make_flags(r >= 0x80, r == 0, r % 16 == 0, r == 0x80, false, f & FLAG_C != 0))
}

pub fn dec8(v: u8, f: u8) -> (r: (u8, u8))
    ensures
        r == dec8_spec(v, f),
{
    let r = ((v as u16 + 255) % 256) as u8;
    (r, make_flags(r >= 0x80, r == 0, v % 16 == 0, v == 0x80, true, f & FLAG_C != 0))
}

/// The rotate and shift operations `RLC RRC RL RR SLA SRA SLL SRL`,
/// selected by `op`: result and carry out.
pub open spec fn rot_spec(op: u8, v: u8, carry: bool) -> (u8, bool) {
    let hi = v >= 0x80;
    let lo = v % 2 == 1;
    if op == 0 {
        (((v * 2) % 256 + bit(hi)) as u8, hi)
    } else if op == 1 {
        ((v / 2 + 128 * bit(lo)) as u8, lo)
    } else if op == 2 {
        (((v * 2) % 256 + bit(carry)) as u8, hi)
    } else if op == 3 {
        ((v / 2 + 128 * bit(carry)) as u8, lo)
    } else if op == 4 {
        (((v * 2) % 256) as u8, hi)
    } else if op == 5 {
        ((v / 2 + 128 * bit(hi)) as u8, lo)
    } else if op == 6 {
        (((v * 2) % 256 + 1) as u8, hi)
    } else {
        ((v / 2) as u8, lo)
    }
}

pub fn rot(op: u8, v: u8, carry: bool) -> (r: (u8, bool))
    ensures
        r == rot_spec(op, v, carry),
{
    let hi = v >= 0x80;
    let lo = v % 2 == 1;
    let hb: u16 = if hi { 1 } else { 0 };
    let lb: u16 = if lo { 1 } else { 0 };
    let cb: u16 = if carry { 1 } else { 0 };
    let w = v as u16;
    match op {
        0 => (((w * 2) % 256 + hb) as u8, hi),
        1 => ((w / 2 + 128 * lb) as u8, lo),
        2 => (((w * 2) % 256 + cb) as u8, hi),
        3 => ((w / 2 + 128 * cb) as u8, lo),
        4 => (((w * 2) % 256) as u8, hi),
        5 => ((w / 2 + 128 * hb) as u8, lo),
        6 => (((w * 2) % 256 + 1) as u8, hi),
        _ => ((w / 2) as u8, lo),
    }
}

/// `DAA`: decimal adjust of `a` after a BCD addition or subtraction.
pub open spec fn daa_spec(a: u8, f: u8) -> (u8, u8) {
    let n = f & FLAG_N != 0;
    let h = f & FLAG_H != 0;
    let c = f & FLAG_C != 0;
    let low = a % 16;
    let diff = (if h || low > 9 { 6int } else { 0 }) + (if c || a > 0x99 { 0x60int } else { 0 });
    let r = (if n { (a - diff + 256) % 256 } else { (a + diff) % 256 }) as u8;
    let hn = if n { h && low < 6 } else { low > 9 };
    (r, flags(r >= 0x80, r == 0, hn, parity(r), n, c || a > 0x99))
}

pub fn daa(a: u8, f: u8) -> (r: (u8, u8))
    ensures
        r == daa_spec(a, f),
{
    let n = f & FLAG_N != 0;
    let h = f & FLAG_H != 0;
    let c = f & FLAG_C != 0;
    let low = a % 16;
    let diff: u16 = (if h || low > 9 { 6 } else { 0 }) + (if c || a > 0x99 { 0x60 } else { 0 });
    let r = (if n { (a as u16 + 256 - diff) % 256 } else { (a as u16 + diff) % 256 }) as u8;
    let hn = if n { h && low < 6 } else { low > 9 };
    (r, make_flags(r >= 0x80, r == 0, hn, parity_of(r), n, c || a > 0x99))
}

/// `ADD HL,rr`: sum and flags; sign, zero and parity are kept from `f`.
pub open spec fn add16_spec(a: u16, b: u16, f: u8) -> (u16, u8) {
    let sum = a + b;
    ((sum % 0x10000) as u16, (f & 0xC4) | fb(a % 0x1000 + b % 0x1000 > 0xFFF, FLAG_H) | fb(sum > 0xFFFF, FLAG_C))
}

pub fn add16_flags(a: u16, b: u16, f: u8) -> (r: (u16, u8))
    ensures
        r == add16_spec(a, b, f),
{
    let sum: u32 = a as u32 + b as u32;
    let h = (a % 0x1000) as u32 + (b % 0x1000) as u32 > 0xFFF;
    let c = sum > 0xFFFF;
    ((sum % 0x10000) as u16, (f & 0xC4) | (if h { FLAG_H } else { 0 }) | (if c { FLAG_C } else { 0 }))
}

/// `ADC HL,rr`: sum with carry and the full flag set.
pub open spec fn adc16_spec(a: u16, b: u16, carry: bool) -> (u16, u8) {
    let sum = a + b + bit(carry);
    let r = (sum % 0x10000) as u16;
    (
        r,
        flags(
            r >= 0x8000,
            r == 0,
            a % 0x1000 + b % 0x1000 + bit(carry) > 0xFFF,
            (a ^ r) & !(a ^ b) & 0x8000 != 0,
            false,
            sum > 0xFFFF,
        ),
    )
}

/// `SBC HL,rr`: difference with borrow and the full flag set.
pub open spec fn sbc16_spec(a: u16, b: u16, carry: bool) -> (u16, u8) {
    let r = ((a - b - bit(carry) + 0x10000) % 0x10000) as u16;
    (
        r,
        flags(
            r >= 0x8000,
            r == 0,
            a % 0x1000 < b % 0x1000 + bit(carry),
            (a ^ b) & (a ^ r) & 0x8000 != 0,
            true,
            a < b + bit(carry),
        ),
    )
}

pub fn adc16(a: u16, b: u16, carry: bool) -> (r: (u16, u8))
    ensures
        r == adc16_spec(a, b, carry),
{
    let cin: u32 = if carry { 1 } else { 0 };
    let sum: u32 = a as u32 + b as u32 + cin;
    let r = (sum % 0x10000) as u16;
    let f = make_flags(
        r >= 0x8000,
        r == 0,
        (a % 0x1000) as u32 + (b % 0x1000) as u32 + cin > 0xFFF,
        (a ^ r) & !(a ^ b) & 0x8000 != 0,
        false,
        sum > 0xFFFF,
    );
    (r, f)
}

pub fn sbc16(a: u16, b: u16, carry: bool) -> (r: (u16, u8))
    ensures
        r == sbc16_spec(a, b, carry),
{
    let cin: u32 = if carry { 1 } else { 0 };
    let r = ((a as u32 + 0x10000 - b as u32 - cin) % 0x10000) as u16;
    let f = make_flags(
        r >= 0x8000,
        r == 0,
        ((a % 0x1000) as u32) < (b % 0x1000) as u32 + cin,
        (a ^ b) & (a ^ r) & 0x8000 != 0,
        true,
        (a as u32) < b as u32 + cin,
    );
    (r, f)
}

} // verus!
