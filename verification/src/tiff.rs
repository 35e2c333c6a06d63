//! The directory chain of a TIFF-style container and the largest JPEG in it.
//!
//! Layout, all offsets from the start of the buffer: four marker bytes, the
//! 32-bit offset of the first directory, and at each directory a 16-bit entry
//! count, that many 12-byte entries (tag at byte 0, value at byte 8) and the
//! 32-bit offset of the next directory, zero at the end of the chain.

use crate::endian::{read_u16, read_u32, u16_at, u32_at, Endianness};
use crate::error::ExtractionError;
use vstd::prelude::*;

verus! {

/// Size in bytes of one directory entry.
pub const IFD_ENTRY_SIZE: usize = 12;

/// Tag of the entry whose value is the offset of an embedded JPEG.
pub const JPEG_TAG: u16 = 0x201;

/// Tag of the entry whose value is the length of an embedded JPEG.
pub const JPEG_LENGTH_TAG: u16 = 0x202;

/// Where an embedded JPEG lies: both fields count bytes from the start of the
/// buffer. The all-zero value stands for "nothing found".
#[derive(Clone, Copy, Debug, PartialEq, Eq, Structural)]
pub struct EmbeddedJpegInfo {
    pub offset: usize,
    pub length: usize,
}

impl EmbeddedJpegInfo {
    /// The "nothing found" value.
    pub open spec fn none() -> EmbeddedJpegInfo {
        EmbeddedJpegInfo { offset: 0, length: 0 }
    }

    /// Whether the range lies inside a buffer of `len` bytes.
    pub open spec fn within(self, len: int) -> bool {
        self.offset + self.length <= len
    }

    /// Whether the range lies inside a buffer of `len` bytes.
    pub fn fits_in(&self, len: usize) -> (r: bool)
        ensures
            r == self.within(len as int),
    {
        self.offset <= len && self.length <= len - self.offset
    }
}

impl Default for EmbeddedJpegInfo {
    fn default() -> (r: EmbeddedJpegInfo)
        ensures
            r == EmbeddedJpegInfo::none(),
    {
        EmbeddedJpegInfo { offset: 0, length: 0 }
    }
}

/// The byte order that the first four bytes announce: `II*\0` for little
/// endian, `MM\0*` for big endian, none for anything else.
pub open spec fn detected_order(b: Seq<u8>) -> Option<Endianness> {
    if b.len() < 4 {
        None
    } else if b[0] == 0x49 && b[1] == 0x49 && b[2] == 0x2A && b[3] == 0 {
        Some(Endianness::Little)
    } else if b[0] == 0x4D && b[1] == 0x4D && b[2] == 0 && b[3] == 0x2A {
        Some(Endianness::Big)
    } else {
        None
    }
}

/// Number of entries of the directory at `ifd`.
pub open spec fn entry_count(b: Seq<u8>, order: Endianness, ifd: int) -> int {
    u16_at(b, ifd, order)
}

/// Whether the directory at `ifd` (count, entries and next-offset field) lies
/// inside the buffer.
pub open spec fn ifd_fits(b: Seq<u8>, order: Endianness, ifd: int) -> bool {
    &&& 0 <= ifd
    &&& ifd + 2 <= b.len()
    &&& ifd + 2 + 12 * entry_count(b, order, ifd) + 4 <= b.len()
}

/// Tag of entry `i` of the directory at `ifd`.
pub open spec fn entry_tag(b: Seq<u8>, order: Endianness, ifd: int, i: int) -> int {
    u16_at(b, ifd + 2 + 12 * i, order)
}

/// Value field of entry `i` of the directory at `ifd`.
pub open spec fn entry_value(b: Seq<u8>, order: Endianness, ifd: int, i: int) -> int {
    u32_at(b, ifd + 2 + 12 * i + 8, order)
}

/// Offset of the directory that follows the one at `ifd`; zero ends the chain.
pub open spec fn next_ifd(b: Seq<u8>, order: Endianness, ifd: int) -> int {
    u32_at(b, ifd + 2 + 12 * entry_count(b, order, ifd), order)
}

/// The offset captured once entry `i` has been read, given what was captured
/// before it.
pub open spec fn offset_after(
    b: Seq<u8>,
    order: Endianness,
    ifd: int,
    i: int,
    offset: Option<usize>,
) -> Option<usize> {
    if entry_tag(b, order, ifd, i) == JPEG_TAG {
        Some(entry_value(b, order, ifd, i) as usize)
    } else {
        offset
    }
}

/// The length captured once entry `i` has been read, given what was captured
/// before it.
pub open spec fn length_after(
    b: Seq<u8>,
    order: Endianness,
    ifd: int,
    i: int,
    length: Option<usize>,
) -> Option<usize> {
    if entry_tag(b, order, ifd, i) == JPEG_LENGTH_TAG {
        Some(entry_value(b, order, ifd, i) as usize)
    } else {
        length
    }
}

/// Scans entries `i..n` of the directory at `ifd` with `offset` and `length`
/// captured so far. The scan stops at the first entry after which both are
/// captured; a later entry of either tag replaces an earlier one until then.
pub open spec fn scan_entries(
    b: Seq<u8>,
    order: Endianness,
    ifd: int,
    i: int,
    n: int,
    offset: Option<usize>,
    length: Option<usize>,
) -> Option<EmbeddedJpegInfo>
    decreases n - i,
{
    if i >= n {
        None
    } else {
        let offset2 = offset_after(b, order, ifd, i, offset);
        let length2 = length_after(b, order, ifd, i, length);
        if offset2 is Some && length2 is Some {
            Some(EmbeddedJpegInfo { offset: offset2.unwrap(), length: length2.unwrap() })
        } else {
            scan_entries(b, order, ifd, i + 1, n, offset2, length2)
        }
    }
}

/// The JPEG that the directory at `ifd` announces, if it holds both tags.
pub open spec fn ifd_candidate(b: Seq<u8>, order: Endianness, ifd: int) -> Option<
    EmbeddedJpegInfo,
> {
    scan_entries(b, order, ifd, 0, entry_count(b, order, ifd), None, None)
}

/// The better of the best JPEG so far and a directory's candidate: the
/// candidate only where it is strictly longer.
pub open spec fn better(best: EmbeddedJpegInfo, candidate: Option<EmbeddedJpegInfo>) -> EmbeddedJpegInfo {
    match candidate {
        Some(c) => if c.length > best.length {
            c
        } else {
            best
        },
        None => best,
    }
}

/// Walks the chain from the directory at `ifd`, visiting at most `fuel`
/// directories, and returns the best JPEG at its end. `None` where a directory
/// does not fit in the buffer or the chain has not ended after `fuel`
/// directories.
pub open spec fn walk_chain(
    b: Seq<u8>,
    order: Endianness,
    ifd: int,
    fuel: nat,
    best: EmbeddedJpegInfo,
) -> Option<EmbeddedJpegInfo>
    decreases fuel,
{
    if ifd == 0 {
        Some(best)
    } else if fuel == 0 || !ifd_fits(b, order, ifd) {
        None
    } else {
        walk_chain(
            b,
            order,
            next_ifd(b, order, ifd),
            (fuel - 1) as nat,
            better(best, ifd_candidate(b, order, ifd)),
        )
    }
}

/// Offset of the first directory, read at byte 4.
pub open spec fn first_ifd(b: Seq<u8>, order: Endianness) -> int {
    u32_at(b, 4, order)
}

/// The best JPEG of the whole chain of a buffer with byte order `order`. A
/// chain of distinct directories has fewer of them than the buffer has bytes,
/// so one that is still running after `b.len()` directories runs in a circle
/// and counts as malformed.
pub open spec fn walk_buffer(b: Seq<u8>, order: Endianness) -> Option<EmbeddedJpegInfo> {
    if b.len() < 8 {
        None
    } else {
        walk_chain(b, order, first_ifd(b, order), b.len(), EmbeddedJpegInfo::none())
    }
}

/// What the search for the largest embedded JPEG yields on buffer `b`.
pub open spec fn locate(b: Seq<u8>) -> Result<EmbeddedJpegInfo, ExtractionError> {
    match detected_order(b) {
        None => Err(ExtractionError::Format),
        Some(order) => match walk_buffer(b, order) {
            None => Err(ExtractionError::Format),
            Some(best) => if best == EmbeddedJpegInfo::none() {
                Err(ExtractionError::NotFound)
            } else if !best.within(b.len() as int) {
                Err(ExtractionError::Bounds)
            } else {
                Ok(best)
            },
        },
    }
}

/// Reads the byte-order marker at the start of `raw_buf`.
pub fn detect_endianness(raw_buf: &[u8]) -> (r: Option<Endianness>)
    ensures
        r == detected_order(raw_buf@),
{
    if raw_buf.len() < 4 {
        return None;
    }
    let b0: u8 = raw_buf[0];
    let b1: u8 = raw_buf[1];
    let b2: u8 = raw_buf[2];
    let b3: u8 = raw_buf[3];
    if b0 == 0x49 && b1 == 0x49 && b2 == 0x2A && b3 == 0 {
        Some(Endianness::Little)
    } else if b0 == 0x4D && b1 == 0x4D && b2 == 0 && b3 == 0x2A {
        Some(Endianness::Big)
    } else {
        None
    }
}

/// Scans the entries of the directory at `ifd` for the JPEG offset and length
/// tags and returns the pair as soon as both have been seen.
pub fn scan_ifd(raw_buf: &[u8], order: Endianness, ifd: usize) -> (r: Option<EmbeddedJpegInfo>)
    requires
        ifd_fits(raw_buf@, order, ifd as int),
    ensures
        r == ifd_candidate(raw_buf@, order, ifd as int),
{
    let len: usize = raw_buf.len();
    let num_entries: usize = read_u16(raw_buf, ifd, order) as usize;
    let mut cur_offset: Option<usize> = None;
    let mut cur_length: Option<usize> = None;
    let mut i: usize = 0;
    while i < num_entries
        invariant
            i <= num_entries,
            len == raw_buf@.len(),
            num_entries as int == entry_count(raw_buf@, order, ifd as int),
            ifd_fits(raw_buf@, order, ifd as int),
            !(cur_offset is Some && cur_length is Some),
            ifd_candidate(raw_buf@, order, ifd as int) == scan_entries(
                raw_buf@,
                order,
                ifd as int,
                i as int,
                num_entries as int,
                cur_offset,
                cur_length,
            ),
        decreases num_entries - i,
    {
        let entry: usize = ifd + 2 + i * IFD_ENTRY_SIZE;
        let tag: u16 = read_u16(raw_buf, entry, order);
        if tag == JPEG_TAG {
            let value: u32 = read_u32(raw_buf, entry + 8, order);
            cur_offset = Some(value as usize);
        } else if tag == JPEG_LENGTH_TAG {
            let value: u32 = read_u32(raw_buf, entry + 8, order);
            cur_length = Some(value as usize);
        }
        match (cur_offset, cur_length) {
            (Some(offset), Some(length)) => {
                return Some(EmbeddedJpegInfo { offset, length });
            },
            _ => {},
        }
        i += 1;
    }
    None
}

/// Finds the largest JPEG embedded in a RAW buffer.
///
/// The chain of directories is walked from the first to the last. Each
/// directory that holds both the JPEG offset and the JPEG length tag offers a
/// candidate, and the longest candidate wins, the earliest of them where
/// several are equally long. The result lies inside the buffer.
pub fn find_largest_embedded_jpeg(raw_buf: &[u8]) -> (r: Result<
    EmbeddedJpegInfo,
    ExtractionError,
>)
    ensures
        r == locate(raw_buf@),
{
    let len: usize = raw_buf.len();
    let order = match detect_endianness(raw_buf) {
        Some(order) => order,
        None => {
            return Err(ExtractionError::Format);
        },
    };
    if len < 8 {
        return Err(ExtractionError::Format);
    }
    let mut next_ifd_offset: usize = read_u32(raw_buf, 4, order) as usize;
    let mut largest_jpeg = EmbeddedJpegInfo { offset: 0, length: 0 };
    // A chain of more directories than the buffer has bytes visits one twice.
    let mut fuel: usize = len;
    while next_ifd_offset != 0
        invariant
            len == raw_buf@.len(),
            len >= 8,
            detected_order(raw_buf@) == Some(order),
            walk_buffer(raw_buf@, order) == walk_chain(
                raw_buf@,
                order,
                next_ifd_offset as int,
                fuel as nat,
                largest_jpeg,
            ),
        decreases fuel,
    {
        if fuel == 0 || next_ifd_offset > len || len - next_ifd_offset < 2 {
            return Err(ExtractionError::Format);
        }
        let num_entries: usize = read_u16(raw_buf, next_ifd_offset, order) as usize;
        if len - next_ifd_offset < 2 + num_entries * IFD_ENTRY_SIZE + 4 {
            return Err(ExtractionError::Format);
        }
        match scan_ifd(raw_buf, order, next_ifd_offset) {
            Some(candidate) => {
                if candidate.length > largest_jpeg.length {
                    largest_jpeg = candidate;
                }
            },
            None => {},
        }
        let link: usize = next_ifd_offset + 2 + num_entries * IFD_ENTRY_SIZE;
        next_ifd_offset = read_u32(raw_buf, link, order) as usize;
        fuel -= 1;
    }
    if largest_jpeg.offset == 0 && largest_jpeg.length == 0 {
        return Err(ExtractionError::NotFound);
    }
    if !largest_jpeg.fits_in(len) {
        return Err(ExtractionError::Bounds);
    }
    Ok(largest_jpeg)
}

} // verus!
