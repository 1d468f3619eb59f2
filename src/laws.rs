//! Properties that hold across calls and for all inputs.
use vstd::prelude::*;

use crate::alu::{FLAG_C, FLAG_H, FLAG_N, FLAG_P, FLAG_S, FLAG_Z, alu_spec, lemma_flags, parity};
use crate::bus::{BusModel, slot_for};
use crate::model::{Z80State, exec_op};
use crate::slot::SlotKind;
use crate::utils::wrap16;
use crate::vdp::{VdpModel, lemma_vram_mask};

verus! {

/// Every address is answered by exactly one of the four slots, the one that
/// the primary slot byte names for its page, and a read returns what that
/// slot holds.
pub proof fn lemma_address_has_one_slot(bus: BusModel, address: u16)
    ensures
        slot_for(address, bus.ppi.primary_slot_config) < 4,
        bus.mem(address) == bus.slot(slot_for(address, bus.ppi.primary_slot_config)).read(
            address,
        ),
{
}

/// Every port operation on the video processor leaves its pointer inside
/// video memory.
pub proof fn lemma_vdp_pointer_in_range(m: VdpModel, port: u8, d: u8)
    requires
        m.wf(),
    ensures
        m.port_write(port, d).address < 0x4000,
        m.port_read(port).0.address < 0x4000,
        m.port_write(port, d).wf(),
        m.port_read(port).0.wf(),
{
    lemma_vram_mask();
    let a = m.address;
    assert(((a & 0xFF00) | (d as u16)) < 0x4000) by (bit_vector)
        requires
            a < 0x4000,
    ;
    assert(d & 0x07 < 8) by (bit_vector);
    if port == 0x99 {
        match m.latch {
            None => {},
            Some(l) => {
                if d & 0x80 != 0 {
                    let t = m.register_set(d & 0x07, l);
                    assert(t.registers.len() == 8);
                }
            },
        }
    }
}

/// Two control writes, `l` then `d`, with no byte pending before them: a
/// write-mode pointer command (bits 7 and 6 of `d` being 0 and 1) sets the
/// pointer to `l` and the low six bits of `d`; a read-mode one does the same
/// and then reads ahead, which moves the pointer one further; a register
/// command sets register `d & 7` to `l`. Either way nothing stays pending.
pub proof fn lemma_vdp_two_phase(m: VdpModel, l: u8, d: u8)
    requires
        m.wf(),
        m.latch is None,
    ensures
        ({
            let t = m.control_write(l).control_write(d);
            let a = ((l as u16) | (((d & 0x3F) as u16) << 8u16)) & 0x3FFF;
            &&& t.latch is None
            &&& d & 0xC0 == 0x40 ==> t.address == a
            &&& d & 0xC0 == 0x00 ==> t.address == VdpModel::next_address(a)
            &&& d & 0x80 != 0 ==> t.registers[(d & 0x07) as int] == l
        }),
{
    assert(d & 0xC0 == 0x40 ==> d & 0x80 == 0 && d & 0x40 != 0) by (bit_vector);
    assert(d & 0xC0 == 0x00 ==> d & 0x80 == 0 && d & 0x40 == 0) by (bit_vector);
    assert(d & 0x07 < 8) by (bit_vector);
}

/// A data port read returns the read-ahead byte and loads the byte at the
/// pointer; so the next read returns the byte at the earlier pointer, and the
/// pointer has moved by one.
pub proof fn lemma_vdp_read_ahead(m: VdpModel)
    requires
        m.wf(),
    ensures
        m.data_read().0.data_read().1 == m.vram[m.address as int],
        m.data_read().0.address == VdpModel::next_address(m.address),
{
}

/// `CPL` complements A and sets H and N.
proof fn lemma_cpl_step(s: Z80State)
    ensures
        exec_op(s, 0x2F) == Some(s.with_a(s.a ^ 0xFF).with_f(s.f | 0x12).advance(1)),
{
}

/// `LD A,n` loads the byte after the opcode.
proof fn lemma_ld_a_step(s: Z80State)
    ensures
        exec_op(s, 0x3E) == Some(s.set_reg8(7, s.imm8(1)).advance(2)),
{
}

/// Complementing the accumulator twice gives it back; `LD A,n` then two
/// `CPL` leaves `n` in A.
pub proof fn lemma_cpl_twice(s: Z80State)
    ensures
        exec_op(exec_op(s, 0x2F).unwrap(), 0x2F).unwrap().a == s.a,
        exec_op(exec_op(exec_op(s, 0x3E).unwrap(), 0x2F).unwrap(), 0x2F).unwrap().a == s.imm8(1),
{
    let a = s.a;
    assert((a ^ 0xFF) ^ 0xFF == a) by (bit_vector);
    let n = s.imm8(1);
    assert((n ^ 0xFF) ^ 0xFF == n) by (bit_vector);
    lemma_cpl_step(s);
    let t = exec_op(s, 0x2F).unwrap();
    lemma_cpl_step(t);
    lemma_ld_a_step(s);
    let u = exec_op(s, 0x3E).unwrap();
    lemma_cpl_step(u);
    lemma_cpl_step(exec_op(u, 0x2F).unwrap());
}

/// `XOR A` clears A and sets Z, clearing C, H and N.
pub proof fn lemma_xor_a(s: Z80State)
    ensures
        ({
            let t = exec_op(s, 0xAF).unwrap();
            &&& t.a == 0
            &&& t.f & FLAG_Z != 0
            &&& t.f & FLAG_C == 0
            &&& t.f & FLAG_H == 0
            &&& t.f & FLAG_N == 0
        }),
{
    let a = s.a;
    assert(a ^ a == 0) by (bit_vector);
    lemma_flags(false, true, false, parity(0), false, false);
}

/// After `AND`, `XOR` or `OR` the parity flag is set exactly when the result
/// has an even number of one bits.
pub proof fn lemma_logic_parity(op: u8, a: u8, f: u8, n: u8)
    requires
        4 <= op <= 6,
    ensures
        (alu_spec(op, a, f, n).1 & FLAG_P != 0) == parity(alu_spec(op, a, f, n).0),
{
    let r = alu_spec(op, a, f, n).0;
    lemma_flags(r >= 0x80, r == 0, op == 4, parity(r), false, false);
}

/// `CP n` keeps A, sets C when A is below `n`, Z when they are equal, S from
/// bit 7 of `A - n`, and N.
pub proof fn lemma_compare(a: u8, f: u8, n: u8)
    ensures
        ({
            let (ra, rf) = alu_spec(7, a, f, n);
            let diff = ((a - n + 256) % 256) as u8;
            &&& ra == a
            &&& (rf & FLAG_C != 0) == (a < n)
            &&& (rf & FLAG_Z != 0) == (a == n)
            &&& (rf & FLAG_S != 0) == (diff & 0x80 != 0)
            &&& rf & FLAG_N != 0
        }),
{
    let diff = ((a - n + 256) % 256) as u8;
    assert((diff >= 0x80) == (diff & 0x80 != 0)) by (bit_vector);
    lemma_flags(
        diff >= 0x80,
        diff == 0,
        a % 16 < n % 16,
        (a ^ n) & (a ^ diff) & 0x80 != 0,
        true,
        a < n,
    );
}

/// Memory at `address` keeps what is written there.
pub open spec fn writable(bus: BusModel, address: u16) -> bool {
    let s = bus.slot(bus.slot_index(address));
    s.kind == SlotKind::Ram && s.covers(address)
}

/// A write changes the byte at its own address, where memory is writable,
/// and no other.
pub proof fn lemma_write_then_read(bus: BusModel, address: u16, value: u8, other: u16)
    ensures
        bus.write(address, value).mem(other) == if other == address && writable(bus, address) {
            value
        } else {
            bus.mem(other)
        },
{
}

/// A word written where memory is writable reads back.
pub proof fn lemma_word_round_trip(bus: BusModel, address: u16, value: u16)
    requires
        writable(bus, address),
        writable(bus, wrap16(address + 1)),
    ensures
        bus.write_word(address, value).word(address) == value,
{
    let next = wrap16(address + 1);
    let b1 = bus.write(address, (value % 256) as u8);
    lemma_write_then_read(bus, address, (value % 256) as u8, next);
    lemma_write_then_read(bus, address, (value % 256) as u8, address);
    lemma_write_then_read(b1, next, (value / 256) as u8, address);
    lemma_write_then_read(b1, next, (value / 256) as u8, next);
}

/// A pushed word pops back, with SP restored, where the two stack bytes are
/// writable.
pub proof fn lemma_push_pop(s: Z80State, value: u16)
    requires
        writable(s.bus, wrap16(s.sp - 2)),
        writable(s.bus, wrap16(s.sp - 1)),
    ensures
        s.push(value).pop().1 == value,
        s.push(value).pop().0.sp == s.sp,
{
    let sp = wrap16(s.sp - 2);
    assert(wrap16(sp + 1) == wrap16(s.sp - 1));
    assert(wrap16(sp + 2) == s.sp);
    lemma_word_round_trip(s.bus, sp, value);
}

} // verus!
