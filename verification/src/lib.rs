//! Locating the largest JPEG preview embedded in a camera RAW file.
//!
//! A RAW file is a TIFF-style container: a four-byte byte-order marker, then a
//! singly linked chain of image file directories. This crate walks that chain
//! over an untrusted byte buffer, picks the largest embedded JPEG, validates
//! the range against the buffer and hands out exactly those bytes. It also
//! holds the decisions of the batch pipeline built around that: which files
//! are picked up, what the output of each is called, the stages a file goes
//! through, and how many files may be in flight at once. Reading and writing
//! files is left to the caller.

pub mod batch;
pub mod discovery;
pub mod endian;
pub mod error;
pub mod extensions;
pub mod extract;
pub mod file_state;
pub mod laws;
pub mod tiff;
