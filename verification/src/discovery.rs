//! The walk over the input tree. Listing a directory is the caller's part:
//! it hands over each entry and is told which directory to list next and
//! which directories need a mirror in the output tree.

use crate::extensions::{is_raw_extension, is_raw_file_extension};
use vstd::prelude::*;

verus! {

/// What the walk over the input tree does with one directory entry.
#[derive(Clone, Copy, Debug, PartialEq, Eq, Structural)]
pub enum EntryKind {
    /// A directory: it is listed later.
    Directory,
    /// A file with a RAW extension: it is extracted.
    RawFile,
    /// Anything else: it is passed over.
    Other,
}

/// The kind of an entry that is a directory or not and has the given
/// extension, if any.
pub open spec fn entry_kind(
    is_dir: bool,
    extension: Option<Seq<u8>>,
    extra: Option<Seq<u8>>,
) -> EntryKind {
    if is_dir {
        EntryKind::Directory
    } else if extension is Some && is_raw_extension(extension.unwrap(), extra) {
        EntryKind::RawFile
    } else {
        EntryKind::Other
    }
}

/// Classifies one directory entry by its type and extension alone; the
/// contents of a file are never looked at.
pub fn classify_entry(is_dir: bool, extension: Option<&[u8]>, extra: Option<&[u8]>) -> (r:
    EntryKind)
    ensures
        r == entry_kind(
            is_dir,
            match extension {
                Some(e) => Some(e@),
                None => None,
            },
            match extra {
                Some(e) => Some(e@),
                None => None,
            },
        ),
{
    if is_dir {
        EntryKind::Directory
    } else {
        match extension {
            Some(e) => if is_raw_file_extension(e, extra) {
                EntryKind::RawFile
            } else {
                EntryKind::Other
            },
            None => EntryKind::Other,
        }
    }
}

/// The state of a walk over the input tree. `P` is whatever the caller uses
/// to name a path.
pub struct Discovery<P> {
    /// Directories that are known and not listed yet.
    pub dir_queue: Vec<P>,
    /// The RAW files found so far, in the order in which they were found.
    pub entries: Vec<P>,
    /// Whether the directory that is being listed holds a RAW file.
    pub found_raw: bool,
}

impl<P> Discovery<P> {
    /// A walk that has the root directory still to list.
    pub fn new(root: P) -> (r: Self)
        ensures
            r.dir_queue@ == seq![root],
            r.entries@ == Seq::<P>::empty(),
            !r.found_raw,
    {
        let mut dir_queue: Vec<P> = Vec::new();
        dir_queue.push(root);
        let r = Discovery { dir_queue, entries: Vec::new(), found_raw: false };
        assert(r.dir_queue@ =~= seq![root]);
        r
    }

    /// Takes the directory to list next, the one that was queued last, and
    /// starts with no RAW file seen in it. `None` once every directory has
    /// been listed.
    pub fn next_dir(&mut self) -> (r: Option<P>)
        ensures
            final(self).entries@ == old(self).entries@,
            old(self).dir_queue@.len() == 0 ==> r is None && final(self).dir_queue@ == old(
                self,
            ).dir_queue@ && final(self).found_raw == old(self).found_raw,
            old(self).dir_queue@.len() > 0 ==> r == Some(old(self).dir_queue@.last())
                && final(self).dir_queue@ == old(self).dir_queue@.drop_last()
                && !final(self).found_raw,
    {
        match self.dir_queue.pop() {
            Some(dir) => {
                self.found_raw = false;
                Some(dir)
            },
            None => None,
        }
    }

    /// Records one entry of the directory that is being listed: a directory
    /// is queued, a RAW file is collected, anything else is dropped.
    pub fn visit(&mut self, path: P, kind: EntryKind)
        ensures
            final(self).dir_queue@ == if kind == EntryKind::Directory {
                old(self).dir_queue@.push(path)
            } else {
                old(self).dir_queue@
            },
            final(self).entries@ == if kind == EntryKind::RawFile {
                old(self).entries@.push(path)
            } else {
                old(self).entries@
            },
            final(self).found_raw == (old(self).found_raw || kind == EntryKind::RawFile),
    {
        match kind {
            EntryKind::Directory => {
                self.dir_queue.push(path);
            },
            EntryKind::RawFile => {
                self.found_raw = true;
                self.entries.push(path);
            },
            EntryKind::Other => {},
        }
    }

    /// Whether the directory that was just listed needs its mirror in the
    /// output tree: it does as soon as it holds one RAW file.
    pub fn needs_output_dir(&self) -> (r: bool)
        ensures
            r == self.found_raw,
    {
        self.found_raw
    }

    /// Ends the walk and hands out the RAW files that were found.
    pub fn into_entries(self) -> (r: Vec<P>)
        ensures
            r@ == self.entries@,
    {
        self.entries
    }
}

} // verus!
