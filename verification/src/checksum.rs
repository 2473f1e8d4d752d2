//! The additive checksum that closes every frame.
//!
//! The protocol calls it a CRC, but it is the plain sum of the bytes before it,
//! kept to eight bits. It notices any change of a single byte and misses every
//! change that keeps the sum, such as two bytes swapped.

use vstd::prelude::*;

verus! {

/// The sum of all bytes of `bytes`, as an unbounded integer.
pub open spec fn byte_sum(bytes: Seq<u8>) -> int
    decreases bytes.len(),
{
    if bytes.len() == 0 {
        0
    } else {
        byte_sum(bytes.drop_last()) + bytes.last() as int
    }
}

/// The checksum of `bytes`: their sum modulo 256.
pub open spec fn checksum(bytes: Seq<u8>) -> u8 {
    (byte_sum(bytes) % 256) as u8
}

/// Appending one byte adds it to the sum.
pub proof fn lemma_byte_sum_push(bytes: Seq<u8>, b: u8)
    ensures
        byte_sum(bytes.push(b)) == byte_sum(bytes) + b as int,
{
    assert(bytes.push(b).drop_last() =~= bytes);
}

/// Replacing the byte at `i` moves the sum by the difference of the two bytes.
pub proof fn lemma_byte_sum_update(bytes: Seq<u8>, i: int, b: u8)
    requires
        0 <= i < bytes.len(),
    ensures
        byte_sum(bytes.update(i, b)) == byte_sum(bytes) - bytes[i] as int + b as int,
    decreases bytes.len(),
{
    if i == bytes.len() - 1 {
        assert(bytes.update(i, b).drop_last() =~= bytes.drop_last());
    } else {
        lemma_byte_sum_update(bytes.drop_last(), i, b);
        assert(bytes.update(i, b).drop_last() =~= bytes.drop_last().update(i, b));
    }
}

/// The checksum notices every change of a single byte: two sequences that
/// differ in exactly one place have different checksums.
pub proof fn lemma_checksum_detects_one_change(bytes: Seq<u8>, i: int, b: u8)
    requires
        0 <= i < bytes.len(),
        b != bytes[i],
    ensures
        checksum(bytes.update(i, b)) != checksum(bytes),
{
    lemma_byte_sum_update(bytes, i, b);
}

/// The checksum misses a transposition: swapping two bytes keeps it.
pub proof fn lemma_checksum_misses_swap(bytes: Seq<u8>, i: int, j: int)
    requires
        0 <= i < bytes.len(),
        0 <= j < bytes.len(),
    ensures
        checksum(bytes.update(i, bytes[j]).update(j, bytes[i])) == checksum(bytes),
{
    lemma_byte_sum_update(bytes, i, bytes[j]);
    lemma_byte_sum_update(bytes.update(i, bytes[j]), j, bytes[i]);
}

/// Computes the checksum of `data`: the sum of its bytes with wraparound.
pub fn crc(data: &[u8]) -> (sum: u8)
    ensures
        sum == checksum(data@),
{
    let mut sum: u8 = 0;
    let mut i: usize = 0;
    while i < data.len()
        invariant
            i <= data@.len(),
            sum == checksum(data@.take(i as int)),
        decreases data@.len() - i,
    {
        proof {
            lemma_byte_sum_push(data@.take(i as int), data@[i as int]);
            assert(data@.take(i + 1) =~= data@.take(i as int).push(data@[i as int]));
        }
        sum = sum.wrapping_add(data[i]);
        i += 1;
    }
    proof {
        assert(data@.take(i as int) =~= data@);
    }
    sum
}

} // verus!
