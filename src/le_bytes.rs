//! Little-endian field access, through `byteorder`.

use byteorder::{ByteOrder, LittleEndian};
use vstd::prelude::*;

verus! {

/// The `u16` whose little-endian bytes are `lo`, `hi`.
pub open spec fn le_u16_spec(lo: u8, hi: u8) -> u16 {
    (lo as int + 256 * (hi as int)) as u16
}

/// The `u32` whose little-endian bytes are `b0` to `b3`.
pub open spec fn le_u32_spec(b0: u8, b1: u8, b2: u8, b3: u8) -> u32 {
    (b0 as int + 256 * (b1 as int) + 65536 * (b2 as int) + 16777216 * (b3 as int)) as u32
}

/// Relies on `byteorder::LittleEndian::read_u16`: the two bytes at `at`, least
/// significant first.
#[verifier::external_body]
pub(crate) fn read_u16_le(buf: &[u8], at: usize) -> (r: u16)
    requires
        at + 2 <= buf@.len(),
    ensures
        r == le_u16_spec(buf@[at as int], buf@[at + 1]),
{
    LittleEndian::read_u16(&buf[at..])
}

/// Relies on `byteorder::LittleEndian::read_u32`: the four bytes at `at`, least
/// significant first.
#[verifier::external_body]
pub(crate) fn read_u32_le(buf: &[u8], at: usize) -> (r: u32)
    requires
        at + 4 <= buf@.len(),
    ensures
        r == le_u32_spec(buf@[at as int], buf@[at + 1], buf@[at + 2], buf@[at + 3]),
{
    LittleEndian::read_u32(&buf[at..])
}

/// Relies on `byteorder::LittleEndian::write_u16`: two bytes, least
/// significant first.
#[verifier::external_body]
pub(crate) fn u16_to_le(n: u16) -> (r: Vec<u8>)
    ensures
        r@.len() == 2,
        le_u16_spec(r@[0], r@[1]) == n,
        r@[0] == (n % 256) as u8,
        r@[1] == (n / 256) as u8,
{
    let mut buf = vec![0u8; 2];
    LittleEndian::write_u16(&mut buf, n);
    buf
}

/// Relies on `byteorder::LittleEndian::write_u32`: four bytes, least
/// significant first.
#[verifier::external_body]
pub(crate) fn u32_to_le(n: u32) -> (r: Vec<u8>)
    ensures
        r@.len() == 4,
        le_u32_spec(r@[0], r@[1], r@[2], r@[3]) == n,
        r@[0] == (n % 256) as u8,
        r@[1] == (n / 256 % 256) as u8,
        r@[2] == (n / 65536 % 256) as u8,
        r@[3] == (n / 16777216) as u8,
{
    let mut buf = vec![0u8; 4];
    LittleEndian::write_u32(&mut buf, n);
    buf
}

} // verus!
