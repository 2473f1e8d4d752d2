//! Fixed-size arrays built element by element.

use vstd::prelude::*;

verus! {

/// `array_init::array_init` calls `initializer` once for each index from 0 up
/// to `N`, in that order, and returns the array of what the calls returned:
/// the element at `i` is what `initializer` returned for `i`. It is believed,
/// not proved, to do so. Every index below `N` must be one that `initializer`
/// accepts.
pub assume_specification<F, T, const N: usize>[ array_init::array_init::<F, T, N> ](
    initializer: F,
) -> (out: [T; N]) where F: FnMut(usize) -> T
    requires
        forall|i: usize| i < N ==> call_requires(initializer, (i,)),
    ensures
        forall|i: usize| i < N ==> call_ensures(initializer, (i,), #[trigger] out@[i as int]),
;

/// The byte at `index` of the window of `count` bytes that starts at `start`
/// in `bytes`; 0 for an index past the window.
pub open spec fn window_byte(bytes: Seq<u8>, start: int, count: int, index: int) -> u8 {
    if 0 <= index < count {
        bytes[start + index]
    } else {
        0
    }
}

/// The byte of `bytes` that stands `index` places after `start`, or 0 where
/// `index` has reached `count`.
pub fn byte_in_window(bytes: &[u8], start: usize, count: usize, index: usize) -> (b: u8)
    requires
        start + count <= bytes@.len(),
    ensures
        b == window_byte(bytes@, start as int, count as int, index as int),
{
    if index < count {
        assert(bytes@.len() == bytes.len());
        bytes[start + index]
    } else {
        0
    }
}

/// An array of `N` bytes that holds the `count` bytes of `bytes` from `start`
/// on, followed by zeros.
pub fn window<const N: usize>(bytes: &[u8], start: usize, count: usize) -> (out: [u8; N])
    requires
        start + count <= bytes@.len(),
        count <= N,
    ensures
        forall|i: int|
            0 <= i < N ==> #[trigger] out@[i] == window_byte(
                bytes@,
                start as int,
                count as int,
                i,
            ),
        out@.take(count as int) == bytes@.subrange(start as int, start + count),
{
    let out: [u8; N] = array_init::array_init(
        |x: usize| -> (b: u8)
            ensures call_ensures(byte_in_window, (bytes, start, count, x), b),
            { byte_in_window(bytes, start, count, x) }
    );
    out
}

} // verus!
