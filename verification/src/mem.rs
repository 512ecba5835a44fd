//! Copying records out of memory that the caller does not own.
//!
//! FoundationDB allocates its results in arenas that give no alignment
//! guarantee, so a result array is never read in place: its records are
//! first copied into a buffer of our own.
use vstd::prelude::*;

verus! {

/// Copies the first `len` records of `src` into a freshly allocated buffer
/// that is sized for exactly `len` records.
///
/// The records come out in the order in which they stand in `src`, each a
/// clone of its source. An empty source with `len == 0` gives an empty
/// buffer.
pub fn read_unaligned_slice<T: Clone>(src: &[T], len: i32) -> (v: Vec<T>)
    requires
        0 <= len <= src@.len(),
    ensures
        v@.len() == len,
        forall|i: int| 0 <= i < len ==> cloned(#[trigger] src@[i], v@[i]),
{
    let n: usize = len as usize;
    let mut v: Vec<T> = Vec::with_capacity(n);
    let mut i: usize = 0;
    while i < n
        invariant
            i <= n,
            n == len,
            n <= src@.len(),
            v@.len() == i,
            forall|j: int| 0 <= j < i ==> cloned(#[trigger] src@[j], v@[j]),
        decreases n - i,
    {
        v.push(src[i].clone());
        i += 1;
    }
    v
}

/// Copies the single record behind `src` into a value of our own.
pub fn read_unaligned_struct<T: Clone>(src: &T) -> (r: T)
    ensures
        cloned(*src, r),
{
    src.clone()
}

} // verus!
