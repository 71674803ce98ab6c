//! Little-endian integer reads and most-significant-bit-first bit lookup,
//! the two byte-level building blocks of the PSF format.

use vstd::prelude::*;

verus! {

/// The two bytes at `pos`, combined low byte first.
pub open spec fn spec_le_u16(s: Seq<u8>, pos: int) -> int
    recommends
        0 <= pos,
        pos + 2 <= s.len(),
{
    s[pos] + s[pos + 1] * 0x100
}

/// The four bytes at `pos`, combined low byte first.
pub open spec fn spec_le_u32(s: Seq<u8>, pos: int) -> int
    recommends
        0 <= pos,
        pos + 4 <= s.len(),
{
    s[pos] + s[pos + 1] * 0x100 + s[pos + 2] * 0x10000 + s[pos + 3] * 0x1000000
}

/// Reads the 16-bit little-endian value stored at `pos`.
pub fn as_le_u16(data: &[u8], pos: usize) -> (r: u16)
    requires
        pos + 2 <= data@.len(),
    ensures
        r == spec_le_u16(data@, pos as int),
{
    data[pos] as u16 + data[pos + 1] as u16 * 0x100
}

/// Reads the 32-bit little-endian value stored at `pos`.
pub fn as_le_u32(data: &[u8], pos: usize) -> (r: u32)
    requires
        pos + 4 <= data@.len(),
    ensures
        r == spec_le_u32(data@, pos as int),
{
    data[pos] as u32 + data[pos + 1] as u32 * 0x100 + data[pos + 2] as u32 * 0x10000
        + data[pos + 3] as u32 * 0x1000000
}

/// Whether bit `col` of `b` is set, counting the most significant bit as
/// column 0: within a packed pixel row, the leftmost pixel sits in the
/// highest bit of its byte.
pub open spec fn bit_msb(b: u8, col: int) -> bool
    recommends
        0 <= col < 8,
{
    (b >> ((7 - col) as u8)) & 1 == 1
}

} // verus!
