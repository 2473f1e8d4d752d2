//! What all frames share: the fixed bytes at their start, their least
//! lengths, and how bytes are laid into a buffer.

use vstd::prelude::*;

verus! {

/// The second byte of an ordinary frame.
pub const NORMAL_COMMAND: u8 = 0x01;

/// The second byte of the reply to a probe for the device's identity.
pub const PROBE_ID_COMMAND: u8 = 0x00;

/// The first byte of every frame.
pub const PREAMBLE: u8 = 0x02;

/// The length of a command frame that carries no payload.
pub const HEADER_LENGTH: usize = 15;

/// The length of a reply frame that carries no payload.
pub const RESPONSE_HEADER_LENGTH: usize = 14;

/// The speed of the serial link in bits per second. The link carries eight
/// data bits, one stop bit and no parity.
pub const BAUD_RATE: u32 = 9600;

/// The time in milliseconds after which a single read at the port gives up.
pub const READ_TIMEOUT_MS: u64 = 100;

/// `after` is `before` with the first `count` bytes of `bytes` laid over the
/// places from `at` on, and nothing else changed.
pub open spec fn overlaid(
    before: Seq<u8>,
    after: Seq<u8>,
    at: int,
    bytes: Seq<u8>,
    count: int,
) -> bool {
    &&& after.len() == before.len()
    &&& forall|i: int|
        0 <= i < after.len() ==> #[trigger] after[i] == if at <= i < at + count {
            bytes[i - at]
        } else {
            before[i]
        }
}

/// Copies the first `count` bytes of `bytes` into `buffer`, from place `at` on.
pub fn put_bytes(buffer: &mut [u8], at: usize, bytes: &[u8], count: usize)
    requires
        at + count <= old(buffer)@.len(),
        count <= bytes@.len(),
    ensures
        overlaid(old(buffer)@, final(buffer)@, at as int, bytes@, count as int),
{
    let mut i: usize = 0;
    assert(buffer@.len() == buffer.len());
    while i < count
        invariant
            i <= count,
            at + count <= buffer@.len(),
            buffer@.len() <= usize::MAX,
            count <= bytes@.len(),
            overlaid(old(buffer)@, buffer@, at as int, bytes@, i as int),
        decreases count - i,
    {
        buffer[at + i] = bytes[i];
        i += 1;
    }
}

} // verus!
