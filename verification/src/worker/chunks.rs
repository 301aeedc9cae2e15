use vstd::prelude::*;

verus! {

/// The most accounts that the worker asks the RPC node for in one request
/// (many nodes refuse more).
pub const MAX_ACCOUNT_CHUNK: usize = 100;

/// `ranges` cut `0..len` into consecutive, non-empty pieces of at most `size`
/// positions each, all of them full but the last.
pub open spec fn chunked(ranges: Seq<(usize, usize)>, len: int, size: int) -> bool {
    &&& len == 0 ==> ranges.len() == 0
    &&& len > 0 ==> ranges.len() > 0 && ranges[0].0 == 0 && ranges.last().1 == len
    &&& forall|i: int|
        0 <= i < ranges.len() ==> #[trigger] ranges[i].0 < ranges[i].1 && ranges[i].1
            - ranges[i].0 <= size
    &&& forall|i: int| 0 <= i < ranges.len() - 1 ==> #[trigger] ranges[i].1 - ranges[i].0 == size
    &&& forall|i: int| 0 < i < ranges.len() ==> #[trigger] ranges[i].0 == ranges[i - 1].1
}

/// The ranges of the pieces into which the worker cuts a list of `len`
/// accounts, `size` at a time, in order (the pieces of `slice::chunks`).
pub fn chunk_ranges(len: usize, size: usize) -> (ranges: Vec<(usize, usize)>)
    requires
        size > 0,
    ensures
        chunked(ranges@, len as int, size as int),
{
    let mut ranges: Vec<(usize, usize)> = Vec::new();
    let mut start: usize = 0;
    while len - start > size
        invariant
            size > 0,
            start <= len,
            start == 0 <==> ranges@.len() == 0,
            ranges@.len() > 0 ==> ranges@[0].0 == 0 && ranges@.last().1 == start,
            forall|i: int| 0 <= i < ranges@.len() ==> #[trigger] ranges@[i].1 - ranges@[i].0 == size,
            forall|i: int| 0 < i < ranges@.len() ==> #[trigger] ranges@[i].0 == ranges@[i - 1].1,
        decreases len - start,
    {
        ranges.push((start, start + size));
        start = start + size;
    }
    if start < len {
        ranges.push((start, len));
    }
    ranges
}

} // verus!
