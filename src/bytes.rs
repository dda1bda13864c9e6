//! Little-endian integer reads from a byte buffer.
use vstd::prelude::*;

verus! {

/// The unsigned 16-bit integer stored little-endian at `off`.
pub open spec fn le_u16(b: Seq<u8>, off: int) -> int {
    b[off] as int + 256 * b[off + 1] as int
}

/// The unsigned 32-bit integer stored little-endian at `off`.
pub open spec fn le_u32(b: Seq<u8>, off: int) -> int {
    le_u16(b, off) + 65536 * le_u16(b, off + 2)
}

/// Two's complement reading of an unsigned 16-bit value.
pub open spec fn signed16(v: int) -> int {
    if v < 0x8000 {
        v
    } else {
        v - 0x10000
    }
}

/// Two's complement reading of an unsigned 32-bit value.
pub open spec fn signed32(v: int) -> int {
    if v < 0x8000_0000 {
        v
    } else {
        v - 0x1_0000_0000
    }
}

pub fn read_u16(b: &[u8], off: usize) -> (r: u16)
    requires
        off + 2 <= b@.len(),
    ensures
        r as int == le_u16(b@, off as int),
{
    b[off] as u16 + 256 * (b[off + 1] as u16)
}

pub fn read_i16(b: &[u8], off: usize) -> (r: i16)
    requires
        off + 2 <= b@.len(),
    ensures
        r as int == signed16(le_u16(b@, off as int)),
{
    let v = read_u16(b, off);
    if v < 0x8000 {
        v as i16
    } else {
        (v as i32 - 0x10000) as i16
    }
}

pub fn read_u32(b: &[u8], off: usize) -> (r: u32)
    requires
        off + 4 <= b@.len(),
    ensures
        r as int == le_u32(b@, off as int),
{
    b[off] as u32 + 256 * (b[off + 1] as u32) + 65536 * (b[off + 2] as u32) + 16777216 * (
    b[off + 3] as u32)
}

pub fn read_i32(b: &[u8], off: usize) -> (r: i32)
    requires
        off + 4 <= b@.len(),
    ensures
        r as int == signed32(le_u32(b@, off as int)),
{
    let v = read_u32(b, off);
    if v < 0x8000_0000 {
        v as i32
    } else {
        (v as i64 - 0x1_0000_0000) as i32
    }
}

} // verus!
