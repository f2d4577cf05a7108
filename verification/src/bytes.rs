//! Cutting fixed-size pieces out of a run of bytes.

use vstd::prelude::*;

verus! {

/// Copies `N` bytes of `source`, starting at `start`, into an array.
pub fn copy_chunk<const N: usize>(source: &[u8], start: usize) -> (chunk: [u8; N])
    requires
        start + N <= source.len(),
    ensures
        chunk@ == source@.subrange(start as int, start + N),
{
    let mut chunk: [u8; N] = [0u8; N];
    let mut i: usize = 0;
    while i < N
        invariant
            i <= N,
            start + N <= source.len(),
            forall|j: int| 0 <= j < i ==> chunk@[j] == source@[start + j],
        decreases N - i,
    {
        chunk[i] = source[start + i];
        i += 1;
    }
    chunk
}

} // verus!
