//! Unsigned integers read from a byte buffer in either byte order.

use byteorder::{BigEndian, ByteOrder, LittleEndian};
use vstd::prelude::*;
use vstd::slice::slice_subrange;

verus! {

/// The byte order of every multi-byte integer in one file.
#[derive(Clone, Copy, Debug, PartialEq, Eq, Structural)]
pub enum Endianness {
    Little,
    Big,
}

/// The 16-bit value of the two bytes of `s` starting at `at`.
pub open spec fn u16_at(s: Seq<u8>, at: int, order: Endianness) -> int {
    match order {
        Endianness::Little => s[at] as int + 256 * (s[at + 1] as int),
        Endianness::Big => 256 * (s[at] as int) + s[at + 1] as int,
    }
}

/// The 32-bit value of the four bytes of `s` starting at `at`.
pub open spec fn u32_at(s: Seq<u8>, at: int, order: Endianness) -> int {
    match order {
        Endianness::Little => s[at] as int + 256 * (s[at + 1] as int) + 65536 * (s[at + 2] as int)
            + 16777216 * (s[at + 3] as int),
        Endianness::Big => 16777216 * (s[at] as int) + 65536 * (s[at + 1] as int) + 256 * (s[at
            + 2] as int) + s[at + 3] as int,
    }
}

/// `byteorder::LittleEndian::read_u16`: the first two bytes of `buf`, least
/// significant byte first. It panics on a shorter buffer.
#[verifier::external_body]
fn le_read_u16(buf: &[u8]) -> (r: u16)
    requires
        buf@.len() >= 2,
    ensures
        r as int == u16_at(buf@, 0, Endianness::Little),
{
    LittleEndian::read_u16(buf)
}

/// `byteorder::BigEndian::read_u16`: the first two bytes of `buf`, most
/// significant byte first. It panics on a shorter buffer.
#[verifier::external_body]
fn be_read_u16(buf: &[u8]) -> (r: u16)
    requires
        buf@.len() >= 2,
    ensures
        r as int == u16_at(buf@, 0, Endianness::Big),
{
    BigEndian::read_u16(buf)
}

/// `byteorder::LittleEndian::read_u32`: the first four bytes of `buf`, least
/// significant byte first. It panics on a shorter buffer.
#[verifier::external_body]
fn le_read_u32(buf: &[u8]) -> (r: u32)
    requires
        buf@.len() >= 4,
    ensures
        r as int == u32_at(buf@, 0, Endianness::Little),
{
    LittleEndian::read_u32(buf)
}

/// `byteorder::BigEndian::read_u32`: the first four bytes of `buf`, most
/// significant byte first. It panics on a shorter buffer.
#[verifier::external_body]
fn be_read_u32(buf: &[u8]) -> (r: u32)
    requires
        buf@.len() >= 4,
    ensures
        r as int == u32_at(buf@, 0, Endianness::Big),
{
    BigEndian::read_u32(buf)
}

/// Reads the 16-bit integer stored at byte `at` of `buf`.
pub fn read_u16(buf: &[u8], at: usize, order: Endianness) -> (r: u16)
    requires
        at + 2 <= buf@.len(),
    ensures
        r as int == u16_at(buf@, at as int, order),
{
    let len: usize = buf.len();
    assert(at + 2 <= len);
    let field = slice_subrange(buf, at, at + 2);
    match order {
        Endianness::Little => le_read_u16(field),
        Endianness::Big => be_read_u16(field),
    }
}

/// Reads the 32-bit integer stored at byte `at` of `buf`.
pub fn read_u32(buf: &[u8], at: usize, order: Endianness) -> (r: u32)
    requires
        at + 4 <= buf@.len(),
    ensures
        r as int == u32_at(buf@, at as int, order),
{
    let len: usize = buf.len();
    assert(at + 4 <= len);
    let field = slice_subrange(buf, at, at + 4);
    match order {
        Endianness::Little => le_read_u32(field),
        Endianness::Big => be_read_u32(field),
    }
}

} // verus!
