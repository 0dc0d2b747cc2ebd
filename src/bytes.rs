//! Little-endian integers read out of byte slices.
use vstd::prelude::*;

verus! {

/// The unsigned 16-bit little-endian integer at `p` in `s`.
pub open spec fn le_u16(s: Seq<u8>, p: int) -> u16 {
    (s[p] as int + 256 * s[p + 1] as int) as u16
}

/// The unsigned 32-bit little-endian integer at `p` in `s`.
pub open spec fn le_u32(s: Seq<u8>, p: int) -> u32 {
    (s[p] as int + 256 * (s[p + 1] as int + 256 * (s[p + 2] as int + 256 * s[p + 3] as int))) as u32
}

/// The two's-complement 32-bit little-endian integer at `p` in `s`.
pub open spec fn le_i32(s: Seq<u8>, p: int) -> i32 {
    let u = le_u32(s, p) as int;
    if u < 0x8000_0000 {
        u as i32
    } else {
        (u - 0x1_0000_0000) as i32
    }
}

pub fn read_u8(data: &[u8], p: usize) -> (r: u8)
    requires
        p < data@.len(),
    ensures
        r == data@[p as int],
{
    data[p]
}

pub fn read_u16(data: &[u8], p: usize) -> (r: u16)
    requires
        p + 2 <= data@.len(),
    ensures
        r == le_u16(data@, p as int),
{
    let b0 = data[p] as u16;
    let b1 = data[p + 1] as u16;
    b0 + 256 * b1
}

pub fn read_u32(data: &[u8], p: usize) -> (r: u32)
    requires
        p + 4 <= data@.len(),
    ensures
        r == le_u32(data@, p as int),
{
    let b0 = data[p] as u32;
    let b1 = data[p + 1] as u32;
    let b2 = data[p + 2] as u32;
    let b3 = data[p + 3] as u32;
    let hi = b2 + 256 * b3;
    let mid = b1 + 256 * hi;
    b0 + 256 * mid
}

pub fn read_i32(data: &[u8], p: usize) -> (r: i32)
    requires
        p + 4 <= data@.len(),
    ensures
        r == le_i32(data@, p as int),
{
    let u = read_u32(data, p);
    if u < 0x8000_0000 {
        u as i32
    } else {
        let low = (u - 0x8000_0000) as i32;
        low + i32::MIN
    }
}

/// The bytes of `s` in `[start, end)`.
pub fn slice_range(s: &[u8], start: usize, end: usize) -> (r: &[u8])
    requires
        start <= end <= s@.len(),
    ensures
        r@ == s@.subrange(start as int, end as int),
{
    let (head, _) = s.split_at(end);
    let (_, tail) = head.split_at(start);
    tail
}

} // verus!
