//! Locating the end of compressed image data.
//!
//! The camera over-reports its output-buffer length for compressed formats,
//! so drained data may carry trailing padding. Callers trim it by searching
//! for the two-byte end-of-image marker — and must keep the data up to the
//! *last* occurrence, since padding can coincidentally contain the marker
//! bytes as well as the image itself.

use vstd::prelude::*;

verus! {

/// Holds when the two-byte end-of-image marker `FF D9` stands at index `i`.
pub open spec fn eof_marker_at(data: Seq<u8>, i: int) -> bool {
    &&& 0 <= i
    &&& i + 2 <= data.len()
    &&& data[i] == 0xff
    &&& data[i + 1] == 0xd9
}

/// Finds the index just past the last end-of-image marker in `data`, or
/// `None` when the data holds no marker (in particular when it is shorter
/// than the two marker bytes).
pub fn find_jpeg_eof(data: &[u8]) -> (r: Option<usize>)
    ensures
        r matches Some(end) ==> {
            &&& 2 <= end <= data@.len()
            &&& eof_marker_at(data@, end - 2)
            &&& forall|j: int| end - 2 < j ==> !eof_marker_at(data@, j)
        },
        r is None ==> forall|j: int| !eof_marker_at(data@, j),
{
    let n = data.len();
    let mut i: usize = 0;
    let mut best: Option<usize> = None;
    while n - i > 1
        invariant
            n == data@.len(),
            i <= n,
            best is None ==> forall|j: int| 0 <= j < i ==> !eof_marker_at(data@, j),
            best matches Some(end) ==> {
                &&& 2 <= end <= i + 1
                &&& end <= data@.len()
                &&& eof_marker_at(data@, end - 2)
                &&& forall|j: int| end - 2 < j < i ==> !eof_marker_at(data@, j)
            },
        decreases data@.len() - i,
    {
        if data[i] == 0xff && data[i + 1] == 0xd9 {
            best = Some(i + 2);
        }
        i = i + 1;
    }
    best
}

} // verus!
