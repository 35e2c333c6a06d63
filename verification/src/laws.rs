//! Laws of the search for the largest embedded JPEG, stated over the
//! model of the container and proved once for every buffer.

use crate::endian::Endianness;
use crate::error::ExtractionError;
use crate::extract::{extracted, extracted_checked, jpeg_bytes};
use crate::tiff::{
    better, detected_order, entry_count, entry_tag, entry_value, first_ifd, ifd_candidate,
    ifd_fits, length_after, locate, next_ifd, offset_after, scan_entries, walk_buffer,
    walk_chain, EmbeddedJpegInfo, JPEG_LENGTH_TAG, JPEG_TAG,
};
use vstd::prelude::*;
use vstd::relations::injective_on;
use vstd::set_lib::{lemma_int_range, lemma_len_subset, lemma_map_size, set_int_range};

verus! {

/// Offset of the directory reached from the one at `ifd` after following `k`
/// next-directory links.
pub open spec fn nth_ifd_from(b: Seq<u8>, order: Endianness, ifd: int, k: nat) -> int
    decreases k,
{
    if k == 0 {
        ifd
    } else {
        nth_ifd_from(b, order, next_ifd(b, order, ifd), (k - 1) as nat)
    }
}

/// Number of directories that a walk from `ifd` with `fuel` visits.
pub open spec fn chain_length(b: Seq<u8>, order: Endianness, ifd: int, fuel: nat) -> nat
    decreases fuel,
{
    if ifd == 0 || fuel == 0 || !ifd_fits(b, order, ifd) {
        0
    } else {
        1 + chain_length(b, order, next_ifd(b, order, ifd), (fuel - 1) as nat)
    }
}

/// Length of the JPEG that the directory at `ifd` announces, zero where it
/// announces none.
pub open spec fn candidate_length(b: Seq<u8>, order: Endianness, ifd: int) -> int {
    match ifd_candidate(b, order, ifd) {
        Some(c) => c.length as int,
        None => 0,
    }
}

/// Whether `best` is what a walk over `n` directories from `ifd`, started
/// with `start`, must end with: no directory announces a longer JPEG, and
/// `best` is either `start` or the announcement of a directory before which
/// every announcement, and `start`, is strictly shorter.
pub open spec fn is_first_longest(
    b: Seq<u8>,
    order: Endianness,
    ifd: int,
    n: nat,
    start: EmbeddedJpegInfo,
    best: EmbeddedJpegInfo,
) -> bool {
    &&& start.length <= best.length
    &&& forall|k: nat|
        k < n ==> candidate_length(b, order, #[trigger] nth_ifd_from(b, order, ifd, k))
            <= best.length
    &&& best == start || exists|k: nat|
        {
            &&& k < n
            &&& ifd_candidate(b, order, #[trigger] nth_ifd_from(b, order, ifd, k)) == Some(best)
            &&& start.length < best.length
            &&& forall|m: nat|
                m < k ==> candidate_length(b, order, #[trigger] nth_ifd_from(b, order, ifd, m))
                    < best.length
        }
}

/// A walk that reaches the end of the chain returns the first of the longest
/// announcements on its way, or what it started with where none is longer.
pub proof fn law_walk_keeps_first_longest(
    b: Seq<u8>,
    order: Endianness,
    ifd: int,
    fuel: nat,
    start: EmbeddedJpegInfo,
)
    requires
        walk_chain(b, order, ifd, fuel, start) is Some,
    ensures
        is_first_longest(
            b,
            order,
            ifd,
            chain_length(b, order, ifd, fuel),
            start,
            walk_chain(b, order, ifd, fuel, start).unwrap(),
        ),
    decreases fuel,
{
    if ifd != 0 {
        let next = next_ifd(b, order, ifd);
        let mid = better(start, ifd_candidate(b, order, ifd));
        let best = walk_chain(b, order, ifd, fuel, start).unwrap();
        let n = chain_length(b, order, ifd, fuel);
        let rest = (n - 1) as nat;
        law_walk_keeps_first_longest(b, order, next, (fuel - 1) as nat, mid);
        assert(is_first_longest(b, order, next, rest, mid, best));
        assert(nth_ifd_from(b, order, ifd, 0) == ifd);
        assert forall|k: nat| k < n implies candidate_length(
            b,
            order,
            #[trigger] nth_ifd_from(b, order, ifd, k),
        ) <= best.length by {
            if k > 0 {
                let j = (k - 1) as nat;
                assert(nth_ifd_from(b, order, ifd, k) == nth_ifd_from(b, order, next, j));
            }
        }
        if best == mid {
            if mid != start {
                assert(ifd_candidate(b, order, nth_ifd_from(b, order, ifd, 0)) == Some(best));
            }
        } else {
            let j = choose|j: nat|
                {
                    &&& j < rest
                    &&& ifd_candidate(b, order, #[trigger] nth_ifd_from(b, order, next, j))
                        == Some(best)
                    &&& mid.length < best.length
                    &&& forall|m: nat|
                        m < j ==> candidate_length(
                            b,
                            order,
                            #[trigger] nth_ifd_from(b, order, next, m),
                        ) < best.length
                };
            let k = j + 1;
            assert(nth_ifd_from(b, order, ifd, k) == nth_ifd_from(b, order, next, j));
            assert forall|m: nat| m < k implies candidate_length(
                b,
                order,
                #[trigger] nth_ifd_from(b, order, ifd, m),
            ) < best.length by {
                if m > 0 {
                    let p = (m - 1) as nat;
                    assert(nth_ifd_from(b, order, ifd, m) == nth_ifd_from(b, order, next, p));
                }
            }
            assert(k < n && ifd_candidate(b, order, nth_ifd_from(b, order, ifd, k)) == Some(
                best,
            ));
        }
    }
}

/// Among the directories of the chain the search returns the JPEG of the one
/// that announces the greatest length, and of the earliest of them where
/// several announce that length.
pub proof fn law_largest_wins_earliest_on_tie(b: Seq<u8>, jpeg: EmbeddedJpegInfo)
    requires
        locate(b) == Ok::<EmbeddedJpegInfo, ExtractionError>(jpeg),
    ensures
        detected_order(b) is Some,
        ({
            let order = detected_order(b).unwrap();
            let first = first_ifd(b, order);
            let n = chain_length(b, order, first, b.len());
            &&& forall|k: nat|
                k < n ==> candidate_length(b, order, #[trigger] nth_ifd_from(b, order, first, k))
                    <= jpeg.length
            &&& exists|k: nat|
                {
                    &&& k < n
                    &&& ifd_candidate(b, order, #[trigger] nth_ifd_from(b, order, first, k))
                        == Some(jpeg)
                    &&& forall|m: nat|
                        m < k ==> candidate_length(
                            b,
                            order,
                            #[trigger] nth_ifd_from(b, order, first, m),
                        ) < jpeg.length
                }
        }),
{
    let order = detected_order(b).unwrap();
    law_walk_keeps_first_longest(
        b,
        order,
        first_ifd(b, order),
        b.len(),
        EmbeddedJpegInfo::none(),
    );
}

/// A walk that fails has visited `chain_length` directories that fit in the
/// buffer and then met one that does not, or ran out of fuel.
proof fn lemma_failed_walk_stops_at_a_directory(
    b: Seq<u8>,
    order: Endianness,
    ifd: int,
    fuel: nat,
    start: EmbeddedJpegInfo,
)
    requires
        walk_chain(b, order, ifd, fuel, start) is None,
    ensures
        ({
            let n = chain_length(b, order, ifd, fuel);
            let stop = nth_ifd_from(b, order, ifd, n);
            &&& n <= fuel
            &&& stop != 0
            &&& n == fuel || !ifd_fits(b, order, stop)
            &&& forall|k: nat|
                k < n ==> {
                    &&& (#[trigger] nth_ifd_from(b, order, ifd, k)) != 0
                    &&& ifd_fits(b, order, nth_ifd_from(b, order, ifd, k))
                }
        }),
    decreases fuel,
{
    if fuel != 0 && ifd_fits(b, order, ifd) {
        let next = next_ifd(b, order, ifd);
        let mid = better(start, ifd_candidate(b, order, ifd));
        lemma_failed_walk_stops_at_a_directory(b, order, next, (fuel - 1) as nat, mid);
        let n = chain_length(b, order, ifd, fuel);
        let rest = (n - 1) as nat;
        assert(nth_ifd_from(b, order, ifd, n) == nth_ifd_from(b, order, next, rest));
        assert forall|k: nat| k < n implies {
            &&& (#[trigger] nth_ifd_from(b, order, ifd, k)) != 0
            &&& ifd_fits(b, order, nth_ifd_from(b, order, ifd, k))
        } by {
            if k > 0 {
                let j = (k - 1) as nat;
                assert(nth_ifd_from(b, order, ifd, k) == nth_ifd_from(b, order, next, j));
            }
        }
    }
}

/// The search never rejects a sound chain for its length. Where a buffer
/// with a byte-order marker and a first-directory offset is rejected as
/// malformed, a directory of its chain does not lie inside the buffer, or the
/// chain comes back to a directory that it has already visited.
pub proof fn law_malformed_chain_has_a_cause(b: Seq<u8>, order: Endianness)
    requires
        detected_order(b) == Some(order),
        b.len() >= 8,
        walk_buffer(b, order) is None,
    ensures
        ({
            let first = first_ifd(b, order);
            ||| exists|k: nat|
                k < b.len() && (#[trigger] nth_ifd_from(b, order, first, k)) != 0 && !ifd_fits(
                    b,
                    order,
                    nth_ifd_from(b, order, first, k),
                )
            ||| exists|i: nat, j: nat|
                i < j < b.len() && nth_ifd_from(b, order, first, i) != 0 && (
                #[trigger] nth_ifd_from(b, order, first, i)) == (#[trigger] nth_ifd_from(
                    b,
                    order,
                    first,
                    j,
                ))
        }),
{
    let first = first_ifd(b, order);
    let len = b.len() as int;
    lemma_failed_walk_stops_at_a_directory(b, order, first, b.len(), EmbeddedJpegInfo::none());
    let n = chain_length(b, order, first, b.len());
    if n == b.len() {
        let visited = |k: int| nth_ifd_from(b, order, first, k as nat);
        let indices = set_int_range(0, len);
        let offsets = indices.map(visited);
        let inside = set_int_range(1, len);
        lemma_int_range(0, len);
        lemma_int_range(1, len);
        assert forall|o: int| offsets.contains(o) implies inside.contains(o) by {
            let k = choose|k: int| indices.contains(k) && visited(k) == o;
            assert(ifd_fits(b, order, nth_ifd_from(b, order, first, k as nat)));
        }
        lemma_len_subset(offsets, inside);
        if injective_on(visited, indices) {
            lemma_map_size(indices, offsets, visited);
            assert(false);
        } else {
            let (x, y) = choose|x: int, y: int|
                indices.contains(x) && indices.contains(y) && #[trigger] visited(x)
                    == #[trigger] visited(y) && x != y;
            let i = (if x < y { x } else { y }) as nat;
            let j = (if x < y { y } else { x }) as nat;
            assert(i < j < b.len());
            assert(nth_ifd_from(b, order, first, i) == nth_ifd_from(b, order, first, j));
            assert(nth_ifd_from(b, order, first, i) != 0);
        }
    } else {
        assert(!ifd_fits(b, order, nth_ifd_from(b, order, first, n)));
    }
}

/// Whether entries `i` and `j` are the pair that a scan of the first `n`
/// entries of the directory at `ifd` stops at: `i` carries the offset tag,
/// `j` the length tag, the later of the two is the first entry that
/// completes a pair, and the earlier is the last of its tag before it.
pub open spec fn is_scanned_pair(
    b: Seq<u8>,
    order: Endianness,
    ifd: int,
    n: int,
    i: int,
    j: int,
) -> bool {
    &&& 0 <= i < n
    &&& 0 <= j < n
    &&& entry_tag(b, order, ifd, i) == JPEG_TAG
    &&& entry_tag(b, order, ifd, j) == JPEG_LENGTH_TAG
    &&& if i < j {
        &&& forall|e: int| 0 <= e < j ==> #[trigger] entry_tag(b, order, ifd, e) != JPEG_LENGTH_TAG
        &&& forall|e: int| i < e < j ==> #[trigger] entry_tag(b, order, ifd, e) != JPEG_TAG
    } else {
        &&& forall|e: int| 0 <= e < i ==> #[trigger] entry_tag(b, order, ifd, e) != JPEG_TAG
        &&& forall|e: int| j < e < i ==> #[trigger] entry_tag(b, order, ifd, e) != JPEG_LENGTH_TAG
    }
}

/// What a scan of the first `n` entries of the directory at `ifd` may
/// return: the values of the pair it stops at, or nothing where one of the
/// two tags does not occur.
pub open spec fn is_scan_result(
    b: Seq<u8>,
    order: Endianness,
    ifd: int,
    n: int,
    found: Option<EmbeddedJpegInfo>,
) -> bool {
    match found {
        Some(c) => exists|i: int, j: int|
            #![trigger entry_value(b, order, ifd, i), entry_value(b, order, ifd, j)]
            {
                &&& is_scanned_pair(b, order, ifd, n, i, j)
                &&& c.offset == entry_value(b, order, ifd, i)
                &&& c.length == entry_value(b, order, ifd, j)
            },
        None => {
            ||| forall|e: int| 0 <= e < n ==> #[trigger] entry_tag(b, order, ifd, e) != JPEG_TAG
            ||| forall|e: int|
                0 <= e < n ==> #[trigger] entry_tag(b, order, ifd, e) != JPEG_LENGTH_TAG
        },
    }
}

/// The scan from entry `k`, where `i` and `j` are the last entries before
/// `k` with the offset and the length tag (-1 for none) and only one of the
/// two has been seen.
proof fn lemma_scan_from(
    b: Seq<u8>,
    order: Endianness,
    ifd: int,
    n: int,
    k: int,
    i: int,
    j: int,
    offset: Option<usize>,
    length: Option<usize>,
)
    requires
        0 <= k <= n,
        -1 <= i < k,
        -1 <= j < k,
        i == -1 || j == -1,
        i >= 0 ==> entry_tag(b, order, ifd, i) == JPEG_TAG,
        j >= 0 ==> entry_tag(b, order, ifd, j) == JPEG_LENGTH_TAG,
        forall|e: int| i < e < k && 0 <= e ==> #[trigger] entry_tag(b, order, ifd, e) != JPEG_TAG,
        forall|e: int|
            j < e < k && 0 <= e ==> #[trigger] entry_tag(b, order, ifd, e) != JPEG_LENGTH_TAG,
        offset == if i >= 0 {
            Some(entry_value(b, order, ifd, i) as usize)
        } else {
            None::<usize>
        },
        length == if j >= 0 {
            Some(entry_value(b, order, ifd, j) as usize)
        } else {
            None::<usize>
        },
    ensures
        is_scan_result(b, order, ifd, n, scan_entries(b, order, ifd, k, n, offset, length)),
    decreases n - k,
{
    if k < n {
        let tag = entry_tag(b, order, ifd, k);
        let i2 = if tag == JPEG_TAG { k } else { i };
        let j2 = if tag == JPEG_LENGTH_TAG { k } else { j };
        let offset2 = offset_after(b, order, ifd, k, offset);
        let length2 = length_after(b, order, ifd, k, length);
        if offset2 is Some && length2 is Some {
            assert(is_scanned_pair(b, order, ifd, n, i2, j2));
            assert(entry_value(b, order, ifd, i2) == offset2.unwrap());
            assert(entry_value(b, order, ifd, j2) == length2.unwrap());
        } else {
            lemma_scan_from(b, order, ifd, n, k + 1, i2, j2, offset2, length2);
        }
    }
}

/// A directory announces a JPEG exactly where it holds both tags. The pair
/// is taken at the first entry after which both tags have been seen: that
/// entry gives one value, and the last earlier entry with the other tag
/// gives the other; no entry after it is looked at.
pub proof fn law_directory_announces_first_complete_pair(b: Seq<u8>, order: Endianness, ifd: int)
    ensures
        is_scan_result(
            b,
            order,
            ifd,
            entry_count(b, order, ifd),
            ifd_candidate(b, order, ifd),
        ),
{
    lemma_scan_from(b, order, ifd, entry_count(b, order, ifd), 0, -1, -1, None, None);
}

/// A buffer of either byte order with a single directory that holds exactly
/// one offset entry and one length entry yields exactly the values of those
/// two entries, provided that they describe a non-empty range inside the
/// buffer.
pub proof fn law_single_directory_pair(b: Seq<u8>, order: Endianness, i: int, j: int)
    requires
        detected_order(b) == Some(order),
        b.len() >= 8,
        first_ifd(b, order) != 0,
        ifd_fits(b, order, first_ifd(b, order)),
        next_ifd(b, order, first_ifd(b, order)) == 0,
        0 <= i < entry_count(b, order, first_ifd(b, order)),
        0 <= j < entry_count(b, order, first_ifd(b, order)),
        entry_tag(b, order, first_ifd(b, order), i) == JPEG_TAG,
        entry_tag(b, order, first_ifd(b, order), j) == JPEG_LENGTH_TAG,
        forall|e: int|
            0 <= e < entry_count(b, order, first_ifd(b, order)) && e != i ==> #[trigger] entry_tag(
                b,
                order,
                first_ifd(b, order),
                e,
            ) != JPEG_TAG,
        forall|e: int|
            0 <= e < entry_count(b, order, first_ifd(b, order)) && e != j ==> #[trigger] entry_tag(
                b,
                order,
                first_ifd(b, order),
                e,
            ) != JPEG_LENGTH_TAG,
        entry_value(b, order, first_ifd(b, order), j) > 0,
        entry_value(b, order, first_ifd(b, order), i) + entry_value(
            b,
            order,
            first_ifd(b, order),
            j,
        ) <= b.len(),
    ensures
        locate(b) == Ok::<EmbeddedJpegInfo, ExtractionError>(
            EmbeddedJpegInfo {
                offset: entry_value(b, order, first_ifd(b, order), i) as usize,
                length: entry_value(b, order, first_ifd(b, order), j) as usize,
            },
        ),
{
    let ifd = first_ifd(b, order);
    let n = entry_count(b, order, ifd);
    law_directory_announces_first_complete_pair(b, order, ifd);
    let found = ifd_candidate(b, order, ifd);
    assert(found == Some(
        EmbeddedJpegInfo {
            offset: entry_value(b, order, ifd, i) as usize,
            length: entry_value(b, order, ifd, j) as usize,
        },
    ));
    let best = better(EmbeddedJpegInfo::none(), found);
    assert(walk_chain(b, order, 0, (b.len() - 1) as nat, best) == Some(best));
    assert(walk_chain(b, order, ifd, b.len(), EmbeddedJpegInfo::none()) == Some(best));
}

/// Nothing is ever extracted from beyond the buffer: where the best JPEG of
/// the chain reaches past the end, the search and both extractions fail with
/// a bounds error.
pub proof fn law_range_beyond_buffer_is_rejected(b: Seq<u8>, order: Endianness)
    requires
        detected_order(b) == Some(order),
        walk_buffer(b, order) is Some,
        walk_buffer(b, order).unwrap() != EmbeddedJpegInfo::none(),
        walk_buffer(b, order).unwrap().offset + walk_buffer(b, order).unwrap().length > b.len(),
    ensures
        locate(b) == Err::<EmbeddedJpegInfo, ExtractionError>(ExtractionError::Bounds),
        extracted(b) == Err::<Seq<u8>, ExtractionError>(ExtractionError::Bounds),
        extracted_checked(b) == Err::<Seq<u8>, ExtractionError>(ExtractionError::Bounds),
{
}

/// Every range that the search returns is non-empty and lies inside the
/// buffer, and the extracted bytes are exactly as long as it says.
pub proof fn law_located_range_is_inside(b: Seq<u8>, jpeg: EmbeddedJpegInfo)
    requires
        locate(b) == Ok::<EmbeddedJpegInfo, ExtractionError>(jpeg),
    ensures
        jpeg.length > 0,
        jpeg.offset + jpeg.length <= b.len(),
        extracted(b) == Ok::<Seq<u8>, ExtractionError>(jpeg_bytes(b, jpeg)),
        jpeg_bytes(b, jpeg).len() == jpeg.length,
        forall|p: int| 0 <= p < jpeg.length ==> jpeg_bytes(b, jpeg)[p] == b[jpeg.offset + p],
{
    let order = detected_order(b).unwrap();
    law_walk_keeps_first_longest(
        b,
        order,
        first_ifd(b, order),
        b.len(),
        EmbeddedJpegInfo::none(),
    );
}

/// A buffer that does not begin with one of the two byte-order markers is
/// rejected as malformed, whatever else it holds.
pub proof fn law_missing_magic_is_format_error(b: Seq<u8>)
    requires
        detected_order(b) is None,
    ensures
        locate(b) == Err::<EmbeddedJpegInfo, ExtractionError>(ExtractionError::Format),
        extracted(b) == Err::<Seq<u8>, ExtractionError>(ExtractionError::Format),
        extracted_checked(b) == Err::<Seq<u8>, ExtractionError>(ExtractionError::Format),
{
}

/// A buffer whose first-directory offset is zero has no directory, and the
/// search reports that nothing was found.
pub proof fn law_empty_chain_is_not_found(b: Seq<u8>, order: Endianness)
    requires
        detected_order(b) == Some(order),
        b.len() >= 8,
        first_ifd(b, order) == 0,
    ensures
        locate(b) == Err::<EmbeddedJpegInfo, ExtractionError>(ExtractionError::NotFound),
        extracted(b) == Err::<Seq<u8>, ExtractionError>(ExtractionError::NotFound),
{
}

} // verus!
