//! From a located range to the bytes of the embedded JPEG.

use crate::error::ExtractionError;
use crate::tiff::{find_largest_embedded_jpeg, locate, EmbeddedJpegInfo};
use vstd::prelude::*;
use vstd::slice::slice_subrange;

verus! {

/// The bytes of `b` that `jpeg` covers.
pub open spec fn jpeg_bytes(b: Seq<u8>, jpeg: EmbeddedJpegInfo) -> Seq<u8> {
    b.subrange(jpeg.offset as int, jpeg.offset + jpeg.length)
}

/// What extraction yields on buffer `b`: the bytes of the largest embedded
/// JPEG, or the error of the search for it.
pub open spec fn extracted(b: Seq<u8>) -> Result<Seq<u8>, ExtractionError> {
    match locate(b) {
        Ok(jpeg) => Ok(jpeg_bytes(b, jpeg)),
        Err(e) => Err(e),
    }
}

/// Whether `s` begins with the JPEG start-of-image marker `FF D8`.
pub open spec fn has_start_marker(s: Seq<u8>) -> bool {
    s.len() >= 2 && s[0] == 0xFF && s[1] == 0xD8
}

/// What extraction with the marker check yields on buffer `b`.
pub open spec fn extracted_checked(b: Seq<u8>) -> Result<Seq<u8>, ExtractionError> {
    match extracted(b) {
        Ok(bytes) => if has_start_marker(bytes) {
            Ok(bytes)
        } else {
            Err(ExtractionError::Bounds)
        },
        Err(e) => Err(e),
    }
}

/// The range to hand to the operating system as "needed soon": the range of
/// `jpeg`, provided that it lies inside a mapping of `raw_len` bytes.
pub fn prefetch_jpeg(raw_len: usize, jpeg: &EmbeddedJpegInfo) -> (r: Result<
    (usize, usize),
    ExtractionError,
>)
    ensures
        jpeg.within(raw_len as int) ==> r == Ok::<(usize, usize), ExtractionError>(
            (jpeg.offset, jpeg.length),
        ),
        !jpeg.within(raw_len as int) ==> r == Err::<(usize, usize), ExtractionError>(
            ExtractionError::Bounds,
        ),
{
    if jpeg.fits_in(raw_len) {
        Ok((jpeg.offset, jpeg.length))
    } else {
        Err(ExtractionError::Bounds)
    }
}

/// Borrows exactly the bytes of `jpeg` from `raw_buf`.
pub fn jpeg_slice<'a>(raw_buf: &'a [u8], jpeg: &EmbeddedJpegInfo) -> (r: &'a [u8])
    requires
        jpeg.within(raw_buf@.len() as int),
    ensures
        r@ == jpeg_bytes(raw_buf@, *jpeg),
{
    let len: usize = raw_buf.len();
    assert(jpeg.offset + jpeg.length <= len);
    slice_subrange(raw_buf, jpeg.offset, jpeg.offset + jpeg.length)
}

/// Checks that `jpeg_buf` begins with the JPEG start-of-image marker.
pub fn check_start_marker(jpeg_buf: &[u8]) -> (r: Result<(), ExtractionError>)
    ensures
        has_start_marker(jpeg_buf@) ==> r == Ok::<(), ExtractionError>(()),
        !has_start_marker(jpeg_buf@) ==> r == Err::<(), ExtractionError>(ExtractionError::Bounds),
{
    if jpeg_buf.len() >= 2 && jpeg_buf[0] == 0xFF && jpeg_buf[1] == 0xD8 {
        Ok(())
    } else {
        Err(ExtractionError::Bounds)
    }
}

/// Finds the largest embedded JPEG of `raw_buf` and borrows its bytes.
pub fn extract_jpeg<'a>(raw_buf: &'a [u8]) -> (r: Result<&'a [u8], ExtractionError>)
    ensures
        match r {
            Ok(bytes) => extracted(raw_buf@) == Ok::<Seq<u8>, ExtractionError>(bytes@),
            Err(e) => extracted(raw_buf@) == Err::<Seq<u8>, ExtractionError>(e),
        },
{
    match find_largest_embedded_jpeg(raw_buf) {
        Ok(jpeg) => Ok(jpeg_slice(raw_buf, &jpeg)),
        Err(e) => Err(e),
    }
}

/// As `extract_jpeg`, and rejects bytes that do not begin with the JPEG
/// start-of-image marker. That tells a wrongly decoded offset from a file
/// that has no preview at all.
pub fn extract_jpeg_checked<'a>(raw_buf: &'a [u8]) -> (r: Result<&'a [u8], ExtractionError>)
    ensures
        match r {
            Ok(bytes) => extracted_checked(raw_buf@) == Ok::<Seq<u8>, ExtractionError>(bytes@),
            Err(e) => extracted_checked(raw_buf@) == Err::<Seq<u8>, ExtractionError>(e),
        },
{
    match extract_jpeg(raw_buf) {
        Ok(bytes) => match check_start_marker(bytes) {
            Ok(()) => Ok(bytes),
            Err(e) => Err(e),
        },
        Err(e) => Err(e),
    }
}

} // verus!
