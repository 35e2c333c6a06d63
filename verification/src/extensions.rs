//! Which files count as RAW files, by their extension alone, and what the
//! extracted JPEG of one is called.

use vstd::prelude::*;

verus! {

/// Number of extensions that are recognised without being configured.
pub const DEFAULT_EXTENSION_COUNT: usize = 20;

/// The extensions of RAW files that are recognised without being
/// configured, in lower case.
pub open spec fn default_extensions() -> Seq<Seq<u8>> {
    seq![
        seq![0x61, 0x72, 0x77],  // arw
        seq![0x63, 0x72, 0x32],  // cr2
        seq![0x63, 0x72, 0x77],  // crw
        seq![0x64, 0x6e, 0x67],  // dng
        seq![0x65, 0x72, 0x66],  // erf
        seq![0x6b, 0x64, 0x63],  // kdc
        seq![0x6d, 0x65, 0x66],  // mef
        seq![0x6d, 0x72, 0x77],  // mrw
        seq![0x6e, 0x65, 0x66],  // nef
        seq![0x6e, 0x72, 0x77],  // nrw
        seq![0x6f, 0x72, 0x66],  // orf
        seq![0x70, 0x65, 0x66],  // pef
        seq![0x72, 0x61, 0x66],  // raf
        seq![0x72, 0x61, 0x77],  // raw
        seq![0x72, 0x77, 0x32],  // rw2
        seq![0x72, 0x77, 0x6c],  // rwl
        seq![0x73, 0x72, 0x32],  // sr2
        seq![0x73, 0x72, 0x66],  // srf
        seq![0x73, 0x72, 0x77],  // srw
        seq![0x78, 0x33, 0x66],  // x3f
    ]
}

/// The lower-case form of an ASCII letter; any other byte unchanged.
pub open spec fn ascii_lower(c: u8) -> u8 {
    if 0x41 <= c <= 0x5A {
        (c + 32) as u8
    } else {
        c
    }
}

/// Whether two extensions are equal up to the case of ASCII letters.
pub open spec fn same_ignoring_case(a: Seq<u8>, b: Seq<u8>) -> bool {
    &&& a.len() == b.len()
    &&& forall|i: int| 0 <= i < a.len() ==> ascii_lower(#[trigger] a[i]) == ascii_lower(b[i])
}

/// Whether `ext` names a RAW file: it equals, up to case, one of the default
/// extensions or the additionally configured one.
pub open spec fn is_raw_extension(ext: Seq<u8>, extra: Option<Seq<u8>>) -> bool {
    ||| exists|i: int|
        0 <= i < default_extensions().len() && same_ignoring_case(
            ext,
            #[trigger] default_extensions()[i],
        )
    ||| (extra is Some && same_ignoring_case(ext, extra.unwrap()))
}

/// The lower-case form of an ASCII letter; any other byte unchanged.
pub fn ascii_lowercase(c: u8) -> (r: u8)
    ensures
        r == ascii_lower(c),
{
    if 0x41 <= c && c <= 0x5A {
        c + 32
    } else {
        c
    }
}

/// Compares two extensions up to the case of ASCII letters.
pub fn eq_ignoring_case(a: &[u8], b: &[u8]) -> (r: bool)
    ensures
        r == same_ignoring_case(a@, b@),
{
    if a.len() != b.len() {
        return false;
    }
    let mut i: usize = 0;
    while i < a.len()
        invariant
            i <= a@.len(),
            a@.len() == b@.len(),
            forall|k: int| 0 <= k < i ==> ascii_lower(#[trigger] a@[k]) == ascii_lower(b@[k]),
        decreases a@.len() - i,
    {
        if ascii_lowercase(a[i]) != ascii_lowercase(b[i]) {
            return false;
        }
        i += 1;
    }
    true
}

/// The default extension number `i`.
pub fn default_extension(i: usize) -> (r: [u8; 3])
    requires
        i < DEFAULT_EXTENSION_COUNT,
    ensures
        r@ == default_extensions()[i as int],
{
    let r: [u8; 3] = match i {
        0 => [0x61, 0x72, 0x77],
        1 => [0x63, 0x72, 0x32],
        2 => [0x63, 0x72, 0x77],
        3 => [0x64, 0x6e, 0x67],
        4 => [0x65, 0x72, 0x66],
        5 => [0x6b, 0x64, 0x63],
        6 => [0x6d, 0x65, 0x66],
        7 => [0x6d, 0x72, 0x77],
        8 => [0x6e, 0x65, 0x66],
        9 => [0x6e, 0x72, 0x77],
        10 => [0x6f, 0x72, 0x66],
        11 => [0x70, 0x65, 0x66],
        12 => [0x72, 0x61, 0x66],
        13 => [0x72, 0x61, 0x77],
        14 => [0x72, 0x77, 0x32],
        15 => [0x72, 0x77, 0x6c],
        16 => [0x73, 0x72, 0x32],
        17 => [0x73, 0x72, 0x66],
        18 => [0x73, 0x72, 0x77],
        _ => [0x78, 0x33, 0x66],
    };
    assert(r@ =~= default_extensions()[i as int]);
    r
}

/// Decides whether an extension names a RAW file.
pub fn is_raw_file_extension(ext: &[u8], extra: Option<&[u8]>) -> (r: bool)
    ensures
        r == is_raw_extension(
            ext@,
            match extra {
                Some(e) => Some(e@),
                None => None,
            },
        ),
{
    let mut i: usize = 0;
    while i < DEFAULT_EXTENSION_COUNT
        invariant
            i <= DEFAULT_EXTENSION_COUNT,
            default_extensions().len() == DEFAULT_EXTENSION_COUNT,
            forall|k: int| 0 <= k < i ==> !same_ignoring_case(ext@, #[trigger] default_extensions()[k]),
        decreases DEFAULT_EXTENSION_COUNT - i,
    {
        let known = default_extension(i);
        if eq_ignoring_case(ext, known.as_slice()) {
            return true;
        }
        i += 1;
    }
    match extra {
        Some(e) => eq_ignoring_case(ext, e),
        None => false,
    }
}

/// Length of the stem of a file name, looking for the dot at index `k` or
/// before it: the index of the last such dot that is not the first byte of
/// the name, or the whole length where there is none.
pub open spec fn stem_len_upto(name: Seq<u8>, k: int) -> int
    decreases k,
{
    if k <= 0 {
        name.len() as int
    } else if name[k] == 0x2E {
        k
    } else {
        stem_len_upto(name, k - 1)
    }
}

/// Length of the stem of a file name: what stands before its extension. A
/// name without a dot, or with none but a leading one, is all stem.
pub open spec fn stem_len(name: Seq<u8>) -> int {
    stem_len_upto(name, name.len() - 1)
}

/// The name of the output file for an input file called `name`: the stem of
/// `name` followed by `.jpg`.
pub open spec fn jpeg_name(name: Seq<u8>) -> Seq<u8> {
    name.subrange(0, stem_len(name)) + seq![0x2Eu8, 0x6Au8, 0x70u8, 0x67u8]
}

/// Length of the stem of a file name.
pub fn stem_length(name: &[u8]) -> (r: usize)
    ensures
        r == stem_len(name@),
        r <= name@.len(),
{
    let len: usize = name.len();
    if len == 0 {
        return 0;
    }
    let mut k: usize = len - 1;
    while k > 0
        invariant
            k < len,
            len == name@.len(),
            stem_len(name@) == stem_len_upto(name@, k as int),
        decreases k,
    {
        if name[k] == 0x2E {
            return k;
        }
        k -= 1;
    }
    len
}

/// Names the output file for an input file: the extension of `name` is
/// replaced by `jpg`, or `.jpg` is added where `name` has none.
pub fn output_file_name(name: &[u8]) -> (r: Vec<u8>)
    ensures
        r@ == jpeg_name(name@),
{
    let stem: usize = stem_length(name);
    let mut out: Vec<u8> = Vec::new();
    let mut i: usize = 0;
    while i < stem
        invariant
            i <= stem <= name@.len(),
            out@ == name@.subrange(0, i as int),
        decreases stem - i,
    {
        out.push(name[i]);
        assert(out@ =~= name@.subrange(0, i + 1));
        i += 1;
    }
    out.push(0x2E);
    out.push(0x6A);
    out.push(0x70);
    out.push(0x67);
    assert(out@ =~= jpeg_name(name@));
    out
}

} // verus!
