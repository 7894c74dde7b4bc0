use vstd::prelude::*;

verus! {

/// Unsigned 16-bit value stored at `p`, big-endian when `be`, else little-endian.
pub open spec fn u16_at(b: Seq<u8>, p: int, be: bool) -> u16 {
    if be {
        (b[p] as int * 0x100 + b[p + 1] as int) as u16
    } else {
        (b[p + 1] as int * 0x100 + b[p] as int) as u16
    }
}

/// Unsigned 32-bit value stored at `p` in the given byte order.
pub open spec fn u32_at(b: Seq<u8>, p: int, be: bool) -> u32 {
    if be {
        (u16_at(b, p, true) as int * 0x10000 + u16_at(b, p + 2, true) as int) as u32
    } else {
        (u16_at(b, p + 2, false) as int * 0x10000 + u16_at(b, p, false) as int) as u32
    }
}

/// Unsigned 64-bit value stored at `p` in the given byte order.
pub open spec fn u64_at(b: Seq<u8>, p: int, be: bool) -> u64 {
    if be {
        (u32_at(b, p, true) as int * 0x1_0000_0000 + u32_at(b, p + 4, true) as int) as u64
    } else {
        (u32_at(b, p + 4, false) as int * 0x1_0000_0000 + u32_at(b, p, false) as int) as u64
    }
}

/// Two's-complement reading of a 16-bit pattern.
pub open spec fn signed16(u: u16) -> int {
    if u >= 0x8000 { u as int - 0x10000 } else { u as int }
}

/// Two's-complement reading of a 32-bit pattern.
pub open spec fn signed32(u: u32) -> int {
    if u >= 0x8000_0000 { u as int - 0x1_0000_0000 } else { u as int }
}

/// Two's-complement reading of an 8-bit pattern.
pub open spec fn signed8(u: u8) -> int {
    if u >= 0x80 { u as int - 0x100 } else { u as int }
}

/// The bytes of `v` in the given byte order.
pub open spec fn u16_bytes(v: u16, be: bool) -> Seq<u8> {
    if be {
        seq![(v / 0x100) as u8, (v % 0x100) as u8]
    } else {
        seq![(v % 0x100) as u8, (v / 0x100) as u8]
    }
}

/// The bytes of `v` in the given byte order.
pub open spec fn u32_bytes(v: u32, be: bool) -> Seq<u8> {
    if be {
        u16_bytes((v / 0x10000) as u16, true) + u16_bytes((v % 0x10000) as u16, true)
    } else {
        u16_bytes((v % 0x10000) as u16, false) + u16_bytes((v / 0x10000) as u16, false)
    }
}

pub fn read_u16(b: &[u8], p: usize, be: bool) -> (r: u16)
    requires
        p + 2 <= b@.len(),
    ensures
        r == u16_at(b@, p as int, be),
{
    let n = b.len();
    assert(p + 2 <= n);
    let hi: u16;
    let lo: u16;
    if be {
        hi = b[p] as u16;
        lo = b[p + 1] as u16;
    } else {
        hi = b[p + 1] as u16;
        lo = b[p] as u16;
    }
    hi * 0x100 + lo
}

pub fn read_u32(b: &[u8], p: usize, be: bool) -> (r: u32)
    requires
        p + 4 <= b@.len(),
    ensures
        r == u32_at(b@, p as int, be),
{
    let n = b.len();
    assert(p + 4 <= n);
    let first = read_u16(b, p, be) as u32;
    let second = read_u16(b, p + 2, be) as u32;
    if be {
        first * 0x10000 + second
    } else {
        second * 0x10000 + first
    }
}

pub fn read_u64(b: &[u8], p: usize, be: bool) -> (r: u64)
    requires
        p + 8 <= b@.len(),
    ensures
        r == u64_at(b@, p as int, be),
{
    let n = b.len();
    assert(p + 8 <= n);
    let first = read_u32(b, p, be) as u64;
    let second = read_u32(b, p + 4, be) as u64;
    if be {
        first * 0x1_0000_0000 + second
    } else {
        second * 0x1_0000_0000 + first
    }
}

pub fn to_i8(u: u8) -> (r: i8)
    ensures
        r == signed8(u),
{
    if u >= 0x80 {
        (u as i16 - 0x100) as i8
    } else {
        u as i8
    }
}

pub fn to_i16(u: u16) -> (r: i16)
    ensures
        r == signed16(u),
{
    if u >= 0x8000 {
        (u as i32 - 0x10000) as i16
    } else {
        u as i16
    }
}

pub fn to_i32(u: u32) -> (r: i32)
    ensures
        r == signed32(u),
{
    if u >= 0x8000_0000 {
        (u as i64 - 0x1_0000_0000) as i32
    } else {
        u as i32
    }
}

/// Writes `v` at `p` in the given byte order, leaving every other byte as it was.
pub fn write_u16(b: &mut Vec<u8>, p: usize, v: u16, be: bool)
    requires
        p + 2 <= old(b)@.len(),
    ensures
        final(b)@ == old(b)@.subrange(0, p as int) + u16_bytes(v, be) + old(b)@.subrange(
            p + 2,
            old(b)@.len() as int,
        ),
{
    let n = b.len();
    assert(p + 2 <= n);
    let hi = (v / 0x100) as u8;
    let lo = (v % 0x100) as u8;
    if be {
        b.set(p, hi);
        b.set(p + 1, lo);
    } else {
        b.set(p, lo);
        b.set(p + 1, hi);
    }
    assert(final(b)@ =~= old(b)@.subrange(0, p as int) + u16_bytes(v, be) + old(b)@.subrange(
        p + 2,
        old(b)@.len() as int,
    ));
}

/// Writes `v` at `p` in the given byte order, leaving every other byte as it was.
pub fn write_u32(b: &mut Vec<u8>, p: usize, v: u32, be: bool)
    requires
        p + 4 <= old(b)@.len(),
    ensures
        final(b)@ == old(b)@.subrange(0, p as int) + u32_bytes(v, be) + old(b)@.subrange(
            p + 4,
            old(b)@.len() as int,
        ),
{
    let n = b.len();
    assert(p + 4 <= n);
    let high = (v / 0x10000) as u16;
    let low = (v % 0x10000) as u16;
    if be {
        write_u16(b, p, high, true);
        write_u16(b, p + 2, low, true);
    } else {
        write_u16(b, p, low, false);
        write_u16(b, p + 2, high, false);
    }
    assert(final(b)@ =~= old(b)@.subrange(0, p as int) + u32_bytes(v, be) + old(b)@.subrange(
        p + 4,
        old(b)@.len() as int,
    ));
}

} // verus!
