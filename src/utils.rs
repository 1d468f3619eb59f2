//! Byte-buffer helpers.
use vstd::prelude::*;

verus! {

/// A copy of a byte vector.
pub fn copy_vec(v: &Vec<u8>) -> (r: Vec<u8>)
    ensures
        r@ == v@,
{
    let mut r: Vec<u8> = Vec::new();
    let mut i: usize = 0;
    while i < v.len()
        invariant
            i <= v@.len(),
            r@ == v@.subrange(0, i as int),
        decreases v@.len() - i,
    {
        r.push(v[i]);
        i = i + 1;
        assert(r@ =~= v@.subrange(0, i as int));
    }
    assert(r@ =~= v@);
    r
}

/// `x` reduced to 16 bits.
pub open spec fn wrap16(x: int) -> u16 {
    (x % 0x10000) as u16
}

/// `x` reduced to 8 bits.
pub open spec fn wrap8(x: int) -> u8 {
    (x % 0x100) as u8
}

/// 16-bit addition modulo `0x10000`.
pub fn add16(a: u16, b: u16) -> (r: u16)
    ensures
        r == wrap16(a + b),
{
    ((a as u32 + b as u32) % 0x10000) as u16
}

/// 16-bit subtraction modulo `0x10000`.
pub fn sub16(a: u16, b: u16) -> (r: u16)
    ensures
        r == wrap16(a - b),
{
    ((a as u32 + 0x10000 - b as u32) % 0x10000) as u16
}

/// ASCII of the lower-case hex digit `n`.
pub open spec fn hex_digit(n: int) -> u8 {
    if n < 10 {
        (48 + n) as u8
    } else {
        (87 + n) as u8
    }
}

/// The two hex digits of a byte.
pub open spec fn hex2(b: u8) -> Seq<u8> {
    seq![hex_digit(b as int / 16), hex_digit(b as int % 16)]
}

/// The four hex digits of an address.
pub open spec fn hex4(a: int) -> Seq<u8> {
    seq![hex_digit(a / 4096), hex_digit((a / 256) % 16), hex_digit((a / 16) % 16), hex_digit(a % 16)]
}

/// How a byte shows in the text column: printable ASCII and space as
/// themselves, anything else as a dot.
pub open spec fn shown(b: u8) -> u8 {
    if 0x20 <= b <= 0x7E {
        b
    } else {
        0x2E
    }
}

/// Hex fields, each followed by a space, of `k` bytes from `addr`.
pub open spec fn hex_fields(buf: Seq<u8>, addr: int, k: nat) -> Seq<u8>
    decreases k,
{
    if k == 0 {
        Seq::empty()
    } else {
        hex_fields(buf, addr, (k - 1) as nat) + hex2(buf[addr + k - 1]) + seq![0x20u8]
    }
}

/// The text column of `k` bytes from `addr`.
pub open spec fn text_column(buf: Seq<u8>, addr: int, k: nat) -> Seq<u8>
    decreases k,
{
    if k == 0 {
        Seq::empty()
    } else {
        text_column(buf, addr, (k - 1) as nat).push(shown(buf[addr + k - 1]))
    }
}

/// One dump line: address and hex fields right-aligned to 54 columns, a
/// space, the text column, a newline.
pub open spec fn dump_line(buf: Seq<u8>, addr: int, k: nat) -> Seq<u8> {
    Seq::new((48 - 3 * k) as nat, |i: int| 0x20u8) + hex4(addr) + seq![0x3Au8, 0x20u8] + hex_fields(
        buf,
        addr,
        k,
    ) + seq![0x20u8] + text_column(buf, addr, k) + seq![0x0Au8]
}

/// The dump of the lines from `addr` while `addr` is below `end`.
pub open spec fn dump_lines(buf: Seq<u8>, addr: int, end: int) -> Seq<u8>
    decreases end + 1 - addr,
{
    if addr >= end {
        Seq::empty()
    } else {
        if end - addr + 1 < 16 {
            dump_line(buf, addr, (end - addr + 1) as nat) + dump_lines(buf, end + 1, end)
        } else {
            dump_line(buf, addr, 16) + dump_lines(buf, addr + 16, end)
        }
    }
}

fn hex_digit_of(n: u8) -> (r: u8)
    requires
        n < 16,
    ensures
        r == hex_digit(n as int),
        r < 128,
{
    if n < 10 {
        48 + n
    } else {
        87 + n
    }
}

/// Relies on `String::from_utf8`: ASCII bytes are valid UTF-8 and each
/// becomes the character of the same code.
#[verifier::external_body]
fn ascii_string(bytes: Vec<u8>) -> (r: String)
    requires
        forall|i: int| 0 <= i < bytes@.len() ==> bytes@[i] < 128,
    ensures
        r@ == bytes@.map_values(|b: u8| b as char),
{
    String::from_utf8(bytes).unwrap_or_default()
}

/// The bytes of one dump line.
fn dump_line_bytes(buffer: &[u8], addr: u16, k: u16, out: &mut Vec<u8>)
    requires
        1 <= k <= 16,
        addr + k <= buffer@.len(),
        forall|i: int| 0 <= i < old(out)@.len() ==> old(out)@[i] < 128,
    ensures
        final(out)@ == old(out)@ + dump_line(buffer@, addr as int, k as nat),
        forall|i: int| 0 <= i < final(out)@.len() ==> final(out)@[i] < 128,
{
    let ghost start = out@;
    let mut i: u16 = 0;
    while i < 48 - 3 * k
        invariant
            i <= 48 - 3 * k,
            1 <= k <= 16,
            out@ == start + Seq::new(i as nat, |j: int| 0x20u8),
            forall|j: int| 0 <= j < out@.len() ==> out@[j] < 128,
        decreases 48 - 3 * k - i,
    {
        out.push(0x20);
        i = i + 1;
        assert(out@ =~= start + Seq::new(i as nat, |j: int| 0x20u8));
    }
    let ghost pad = out@;
    out.push(hex_digit_of((addr / 4096) as u8));
    out.push(hex_digit_of(((addr / 256) % 16) as u8));
    out.push(hex_digit_of(((addr / 16) % 16) as u8));
    out.push(hex_digit_of((addr % 16) as u8));
    out.push(0x3A);
    out.push(0x20);
    assert(out@ =~= pad + hex4(addr as int) + seq![0x3Au8, 0x20u8]);
    let ghost head = out@;
    let mut j: u16 = 0;
    while j < k
        invariant
            j <= k,
            addr + k <= buffer@.len(),
            out@ == head + hex_fields(buffer@, addr as int, j as nat),
            forall|m: int| 0 <= m < out@.len() ==> out@[m] < 128,
        decreases k - j,
    {
        let b = buffer[addr as usize + j as usize];
        out.push(hex_digit_of(b / 16));
        out.push(hex_digit_of(b % 16));
        out.push(0x20);
        j = j + 1;
        assert(out@ =~= head + hex_fields(buffer@, addr as int, j as nat));
    }
    out.push(0x20);
    let ghost mid = out@;
    let mut t: u16 = 0;
    while t < k
        invariant
            t <= k,
            addr + k <= buffer@.len(),
            out@ == mid + text_column(buffer@, addr as int, t as nat),
            forall|m: int| 0 <= m < out@.len() ==> out@[m] < 128,
        decreases k - t,
    {
        let b = buffer[addr as usize + t as usize];
        out.push(if 0x20 <= b && b <= 0x7E { b } else { 0x2E });
        t = t + 1;
        assert(out@ =~= mid + text_column(buffer@, addr as int, t as nat));
    }
    out.push(0x0A);
    assert(out@ =~= start + dump_line(buffer@, addr as int, k as nat));
}

/// Hex dump of `buffer` from `start` while below `end`: lines of up to
/// sixteen bytes, each line taking bytes through `end` itself.
pub fn hexdump(buffer: &[u8], start: u16, end: u16) -> (r: String)
    requires
        end < buffer@.len(),
    ensures
        r@ == dump_lines(buffer@, start as int, end as int).map_values(|b: u8| b as char),
{
    let mut out: Vec<u8> = Vec::new();
    let mut addr: u32 = start as u32;
    while addr < end as u32
        invariant
            end < buffer@.len(),
            addr == start || addr <= end + 1,
            out@ + dump_lines(buffer@, addr as int, end as int) == dump_lines(
                buffer@,
                start as int,
                end as int,
            ),
            forall|i: int| 0 <= i < out@.len() ==> out@[i] < 128,
        decreases end + 1 - addr,
    {
        let k: u16 = if end as u32 - addr + 1 < 16 { (end as u32 - addr + 1) as u16 } else { 16 };
        let ghost before = out@;
        dump_line_bytes(buffer, addr as u16, k, &mut out);
        assert(before + dump_lines(buffer@, addr as int, end as int) =~= before + dump_line(
            buffer@,
            addr as int,
            k as nat,
        ) + dump_lines(buffer@, addr + k, end as int));
        addr = addr + k as u32;
    }
    ascii_string(out)
}

} // verus!
