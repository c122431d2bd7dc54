//! A narrowed copy routine for the allocator's data-moving paths. It copies
//! `count` bytes rounded **up** to a multiple of four, mirroring a word-wise
//! copy that has no byte-wise tail: when `count` is not itself a multiple of
//! four, up to three bytes past the requested range are read from the source
//! and written to the destination. Callers must provide that much slack in
//! both buffers; the contract demands it.

use vstd::prelude::*;

verus! {

use crate::align::round_up;
use crate::align::spec_round_up;

/// Copies `count` bytes from the front of `src` to the front of `dst`,
/// rounding the count up to the next multiple of four. Bytes of `dst` beyond
/// the rounded count keep their old values; when `count` is already a
/// multiple of four, exactly `src[0..count]` is reproduced and nothing else
/// changes.
pub fn copy_nonoverlapping(src: &Vec<u8>, dst: &mut Vec<u8>, count: usize)
    requires
        count <= usize::MAX - 3,
        spec_round_up(count as int, 4) <= src.len(),
        spec_round_up(count as int, 4) <= old(dst).len(),
    ensures
        final(dst).len() == old(dst).len(),
        forall|j: int|
            0 <= j < spec_round_up(count as int, 4) ==> final(dst)@[j] == src@[j],
        forall|j: int|
            spec_round_up(count as int, 4) <= j < old(dst).len() ==> final(dst)@[j] == old(
                dst,
            )@[j],
        count % 4 == 0 ==> forall|j: int| 0 <= j < count ==> final(dst)@[j] == src@[j],
        count % 4 == 0 ==> forall|j: int|
            count <= j < old(dst).len() ==> final(dst)@[j] == old(dst)@[j],
{
    let n: usize = round_up(count, 4).0;
    let mut i: usize = 0;
    while i < n
        invariant
            i <= n,
            n == spec_round_up(count as int, 4),
            n <= src.len(),
            n <= dst.len(),
            dst.len() == old(dst).len(),
            forall|j: int| 0 <= j < i ==> dst@[j] == src@[j],
            forall|j: int| i <= j < dst.len() ==> dst@[j] == old(dst)@[j],
        decreases n - i,
    {
        let b: u8 = src[i];
        dst[i] = b;
        i += 1;
    }
}

} // verus!
