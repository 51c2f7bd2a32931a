//! The address space and block transfers.

use vstd::prelude::*;

verus! {

/// Number of addressable bytes.
pub const MEMORY_SIZE: usize = 4096;

/// Address at which programs are loaded and start running.
pub const PROGRAM_START: usize = 0x200;

/// Longest program that fits between `PROGRAM_START` and the end of memory.
pub const MAX_PROGRAM_SIZE: usize = 3584;

/// `dst` with `src` written over it from index `at` onwards; the length of
/// `dst` does not change.
pub open spec fn overlay(dst: Seq<u8>, at: int, src: Seq<u8>) -> Seq<u8> {
    Seq::new(
        dst.len(),
        |k: int|
            if at <= k < at + src.len() {
                src[k - at]
            } else {
                dst[k]
            },
    )
}

/// Copies the `count` bytes of `src` that start at index `from` into `dst`
/// from index `at` onwards.
pub fn copy_block<const N: usize>(
    dst: &mut [u8; N],
    at: usize,
    src: &[u8],
    from: usize,
    count: usize,
)
    requires
        at + count <= N,
        from + count <= src.len(),
    ensures
        final(dst)@ == overlay(old(dst)@, at as int, src@.subrange(from as int, from + count)),
    no_unwind
{
    let mut k: usize = 0;
    while k < count
        invariant
            k <= count,
            at + count <= N,
            from + count <= src.len(),
            dst@ == overlay(old(dst)@, at as int, src@.subrange(from as int, from + k)),
        decreases count - k,
    {
        dst[at + k] = src[from + k];
        k += 1;
    }
}

} // verus!
