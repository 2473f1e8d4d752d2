//! The reply frame: what a device answers.
//!
//! A reply has one of three shapes. The usual one carries an error flag and a
//! payload:
//!
//! | offset          | field                                  |
//! |-----------------|----------------------------------------|
//! | 0               | preamble, 0x02                         |
//! | 1               | 0x01                                   |
//! | 2               | length of the frame, 14 + payload      |
//! | 3               | 0x00                                   |
//! | 4..8            | destination address                    |
//! | 8..12           | source address                         |
//! | 12              | error flag: 0 for none, 1 for an error |
//! | 13..13+payload  | payload                                |
//! | 13+payload      | checksum of all bytes before it        |
//!
//! The other two are fixed answers to a probe and to a handshake of older
//! stations. They are written and never read.

use vstd::prelude::*;
use vstd::slice::slice_subrange;
use crate::arrays::window;
use crate::checksum::{checksum, crc, lemma_checksum_detects_one_change};
use crate::wire::{
    put_bytes,
    NORMAL_COMMAND,
    PREAMBLE,
    PROBE_ID_COMMAND,
    RESPONSE_HEADER_LENGTH,
};

verus! {

/// The longest payload that a reply frame can carry: with more, the length of
/// the frame would not fit into its one byte.
pub const MAX_RESPONSE_PAYLOAD: usize = 241;

/// The length of the reply to a probe for the device's identity.
pub const CPU_ID_LENGTH: usize = 18;

/// The length of the reply to the handshake of older stations.
pub const LEGACY_CIPHER_LENGTH: usize = 22;

/// The shape of a reply on the wire.
#[derive(Copy, Clone)]
pub enum ResponseType {
    /// The ordinary reply, with error flag and payload.
    Usual,
    /// The reply to a probe: 18 bytes that repeat the source address.
    CpuID,
    /// The reply to the handshake of older stations: 22 bytes, the same for
    /// every device but for the addresses.
    LegacyCipher,
}

/// A reply, as it is held in memory.
///
/// The payload is the first `data_len` bytes of `data`.
#[derive(Copy, Clone)]
pub struct Response {
    pub data_len: u8,
    pub destination: [u8; 4],
    pub source: [u8; 4],
    pub error: bool,
    pub response_type: ResponseType,
    pub data: [u8; 256],
}

/// What a reply says: the two addresses, the error flag, the shape and the
/// payload.
pub struct ResponseView {
    pub destination: Seq<u8>,
    pub source: Seq<u8>,
    pub error: bool,
    pub response_type: ResponseType,
    pub payload: Seq<u8>,
}

impl View for Response {
    type V = ResponseView;

    open spec fn view(&self) -> ResponseView {
        ResponseView {
            destination: self.destination@,
            source: self.source@,
            error: self.error,
            response_type: self.response_type,
            payload: self.data@.take(self.data_len as int),
        }
    }
}

/// The nine bytes that follow the addresses in the reply to the handshake of
/// older stations. Nothing is known of what they mean; devices have always
/// answered with them.
pub open spec fn legacy_cipher_bytes() -> Seq<u8> {
    seq![0u8, 33u8, 1u8, 5u8, 5u8, 4u8, 2u8, 255u8, 37u8]
}

impl ResponseView {
    /// The addresses have four bytes each, and the payload is one that a
    /// frame of this shape can carry.
    pub open spec fn fits_frame(self) -> bool {
        &&& self.destination.len() == 4
        &&& self.source.len() == 4
        &&& self.response_type is Usual ==> self.payload.len() <= MAX_RESPONSE_PAYLOAD
    }

    /// The length of the frame of this reply.
    pub open spec fn frame_len(self) -> int {
        match self.response_type {
            ResponseType::Usual => RESPONSE_HEADER_LENGTH + self.payload.len(),
            ResponseType::CpuID => CPU_ID_LENGTH as int,
            ResponseType::LegacyCipher => LEGACY_CIPHER_LENGTH as int,
        }
    }
}

/// The byte at offset `i` of the frame of `r`, for an offset before the
/// checksum.
pub open spec fn response_body_byte(r: ResponseView, i: int) -> u8 {
    if i == 0 {
        PREAMBLE
    } else if i == 1 {
        if r.response_type is CpuID {
            PROBE_ID_COMMAND
        } else {
            NORMAL_COMMAND
        }
    } else if i == 2 {
        r.frame_len() as u8
    } else if i == 3 {
        0
    } else if i < 8 {
        r.destination[i - 4]
    } else if i < 12 {
        r.source[i - 8]
    } else {
        match r.response_type {
            ResponseType::Usual => if i == 12 {
                if r.error {
                    1
                } else {
                    0
                }
            } else {
                r.payload[i - 13]
            },
            ResponseType::CpuID => if i == 12 {
                0
            } else {
                r.source[i - 13]
            },
            ResponseType::LegacyCipher => legacy_cipher_bytes()[i - 12],
        }
    }
}

/// The frame of `r` without its checksum.
pub open spec fn response_body(r: ResponseView) -> Seq<u8> {
    Seq::new((r.frame_len() - 1) as nat, |i: int| response_body_byte(r, i))
}

/// The frame that `r` is sent as.
pub open spec fn response_frame(r: ResponseView) -> Seq<u8> {
    response_body(r).push(checksum(response_body(r)))
}

/// `bytes` starts with a reply frame of the usual shape: it has the least
/// length, the preamble and the byte 0x01 after it, the length it declares is
/// at least that of an empty reply and at most what `bytes` holds, and the
/// last byte of that length is the checksum of those before it.
pub open spec fn holds_response(bytes: Seq<u8>) -> bool {
    &&& bytes.len() >= RESPONSE_HEADER_LENGTH
    &&& bytes[0] == PREAMBLE
    &&& bytes[1] == NORMAL_COMMAND
    &&& bytes[2] >= RESPONSE_HEADER_LENGTH
    &&& bytes.len() >= bytes[2]
    &&& bytes[bytes[2] - 1] == checksum(bytes.take(bytes[2] - 1))
}

/// The reply that `bytes` starts with, if it starts with one.
///
/// The error flag of what is read is never set, whatever byte 12 holds:
/// stations of this protocol have always read replies so, and tools that work
/// with them count on it. A reply that reports an error is therefore read as
/// one that reports none.
pub open spec fn frame_response(bytes: Seq<u8>) -> Option<ResponseView> {
    if holds_response(bytes) {
        Some(
            ResponseView {
                destination: bytes.subrange(4, 8),
                source: bytes.subrange(8, 12),
                error: false,
                response_type: ResponseType::Usual,
                payload: bytes.subrange(13, bytes[2] - 1),
            },
        )
    } else {
        None
    }
}

impl Response {
    /// The length of the shortest reply frame.
    pub const MIN_PACKET_LEN: usize = 0x0E;

    /// Every byte of `data` after the payload is zero.
    pub open spec fn wf(&self) -> bool {
        forall|i: int| self.data_len <= i < 256 ==> self.data@[i] == 0
    }

    /// `out` is what parsing `bytes` gives: the reply that `bytes` starts
    /// with, well formed, or nothing where it starts with none.
    pub open spec fn parsed(bytes: Seq<u8>, out: Option<Response>) -> bool {
        match out {
            Some(response) => response.wf() && frame_response(bytes) == Some(response@),
            None => frame_response(bytes) is None,
        }
    }

    /// A reply of the usual shape that reports no error.
    pub fn ok(destination: [u8; 4], source: [u8; 4], data: &[u8]) -> (response: Response)
        requires
            data@.len() < 256,
        ensures
            response.wf(),
            response.data_len == data@.len(),
            response@ == (ResponseView {
                destination: destination@,
                source: source@,
                error: false,
                response_type: ResponseType::Usual,
                payload: data@,
            }),
    {
        let data_len: usize = data.len();
        let response = Response {
            data_len: data_len as u8,
            destination,
            source,
            response_type: ResponseType::Usual,
            error: false,
            data: window(data, 0, data_len),
        };
        assert(data@.subrange(0, data_len as int) =~= data@);
        response
    }

    /// A reply of the usual shape that reports an error.
    pub fn err(destination: [u8; 4], source: [u8; 4], data: &[u8]) -> (response: Response)
        requires
            data@.len() < 256,
        ensures
            response.wf(),
            response.data_len == data@.len(),
            response@ == (ResponseView {
                destination: destination@,
                source: source@,
                error: true,
                response_type: ResponseType::Usual,
                payload: data@,
            }),
    {
        let data_len: usize = data.len();
        let response = Response {
            data_len: data_len as u8,
            destination,
            source,
            error: true,
            response_type: ResponseType::Usual,
            data: window(data, 0, data_len),
        };
        assert(data@.subrange(0, data_len as int) =~= data@);
        response
    }

    /// Writes the frame of the reply to the start of `buffer` and returns its
    /// length. The rest of `buffer` is left as it was.
    pub fn serialize(self, buffer: &mut [u8]) -> (len: usize)
        requires
            self.response_type is Usual ==> self.data_len <= MAX_RESPONSE_PAYLOAD,
            old(buffer)@.len() >= self@.frame_len(),
        ensures
            len == self@.frame_len(),
            final(buffer)@.len() == old(buffer)@.len(),
            final(buffer)@.take(len as int) == response_frame(self@),
            final(buffer)@.skip(len as int) == old(buffer)@.skip(len as int),
    {
        buffer[0] = PREAMBLE;
        buffer[3] = 0;
        put_bytes(buffer, 4, &self.destination, 4);
        put_bytes(buffer, 8, &self.source, 4);
        let len: usize = match self.response_type {
            ResponseType::Usual => {
                buffer[1] = NORMAL_COMMAND;
                let dlen: usize = self.data_len as usize;
                buffer[2] = 14 + self.data_len;
                buffer[12] = if self.error {
                    1
                } else {
                    0
                };
                put_bytes(buffer, 13, &self.data, dlen);
                dlen + RESPONSE_HEADER_LENGTH
            },
            ResponseType::CpuID => {
                buffer[1] = PROBE_ID_COMMAND;
                buffer[2] = 18;
                buffer[12] = 0;
                put_bytes(buffer, 13, &self.source, 4);
                CPU_ID_LENGTH
            },
            ResponseType::LegacyCipher => {
                let cipher: [u8; 9] = [0, 33, 1, 5, 5, 4, 2, 255, 37];
                buffer[1] = NORMAL_COMMAND;
                buffer[2] = 22;
                put_bytes(buffer, 12, &cipher, 9);
                LEGACY_CIPHER_LENGTH
            },
        };
        let c: u8 = crc(slice_subrange(buffer, 0, len - 1));
        proof {
            assert(buffer@.subrange(0, len - 1) =~= response_body(self@));
        }
        buffer[len - 1] = c;
        len
    }

    /// Reads the reply frame at the start of `buffer`.
    ///
    /// Returns nothing where `buffer` does not start with a frame of the usual
    /// shape whose checksum holds. Bytes of `buffer` after the frame are not
    /// looked at. The error flag of the reply returned is never set: see
    /// [`frame_response`].
    pub fn parse(buffer: &[u8]) -> (out: Option<Response>)
        ensures
            Response::parsed(buffer@, out),
    {
        if buffer.len() < Self::MIN_PACKET_LEN {
            return None;
        }
        if buffer[0] == PREAMBLE && buffer[1] == NORMAL_COMMAND {
            let len: u8 = buffer[2];
            let total: usize = len as usize;
            if total < Self::MIN_PACKET_LEN {
                return None;
            }
            if buffer.len() >= total {
                let data_len: u8 = len - 14;
                let sum: u8 = crc(slice_subrange(buffer, 0, total - 1));
                if buffer[total - 1] == sum {
                    let response = Response {
                        error: false,
                        response_type: ResponseType::Usual,
                        data_len,
                        destination: window(buffer, 4, 4),
                        source: window(buffer, 8, 4),
                        data: window(buffer, 13, data_len as usize),
                    };
                    proof {
                        assert(response.destination@ =~= buffer@.subrange(4, 8));
                        assert(response.source@ =~= buffer@.subrange(8, 12));
                    }
                    return Some(response);
                }
            }
        }
        None
    }
}

/// A reply of the usual shape that is sent and read again comes back with
/// its addresses and its payload, whatever follows its frame in the buffer, and
/// with its error flag cleared: a reply sent with the flag set is read with the
/// flag not set.
pub proof fn lemma_response_round_trip(r: ResponseView, rest: Seq<u8>)
    requires
        r.fits_frame(),
        r.response_type is Usual,
    ensures
        frame_response(response_frame(r) + rest) == Some(
            ResponseView {
                destination: r.destination,
                source: r.source,
                error: false,
                response_type: ResponseType::Usual,
                payload: r.payload,
            },
        ),
{
    let bytes = response_frame(r) + rest;
    let total = 14 + r.payload.len();
    assert(bytes.take(total - 1) =~= response_body(r));
    assert(bytes.subrange(4, 8) =~= r.destination);
    assert(bytes.subrange(8, 12) =~= r.source);
    assert(bytes.subrange(13, total - 1) =~= r.payload);
}

/// Two replies that say the same and are well formed are equal field by
/// field.
pub proof fn lemma_response_equal_by_view(a: Response, b: Response)
    requires
        a.wf(),
        b.wf(),
        a@ == b@,
    ensures
        a == b,
{
    assert(a@.payload.len() == a.data_len && b@.payload.len() == b.data_len);
    assert(a.destination =~= b.destination);
    assert(a.source =~= b.source);
    assert forall|i: int| 0 <= i < 256 implies a.data@[i] == b.data@[i] by {
        if i < a.data_len {
            assert(a.data@[i] == a@.payload[i]);
        }
    }
    assert(a.data =~= b.data);
}

/// Parsing is a function of the bytes: whatever two parses of the same buffer
/// give is equal field by field.
pub proof fn lemma_response_parse_repeats(bytes: Seq<u8>, first: Option<Response>, second: Option<Response>)
    requires
        Response::parsed(bytes, first),
        Response::parsed(bytes, second),
    ensures
        first == second,
{
    if first is Some {
        lemma_response_equal_by_view(first->Some_0, second->Some_0);
    }
}

/// Changing the byte at `i` of `frame` to `b` cuts the frame short: the byte
/// is the one that holds the length, the new length is one that a reply can
/// have and is less than the old, and the byte that now stands last happens to
/// be the checksum of those before it.
pub open spec fn cuts_response_short(frame: Seq<u8>, i: int, b: u8) -> bool {
    &&& i == 2
    &&& RESPONSE_HEADER_LENGTH <= b < frame[2]
    &&& frame[b - 1] == checksum(frame.update(2, b).take(b - 1))
}

/// A frame in which one byte before the checksum was changed is rejected.
///
/// The one change that can pass is a length byte lowered to a length at which
/// the checksum holds again; see [`lemma_response_cut_short_is_read`].
pub proof fn lemma_response_corruption_rejected(frame: Seq<u8>, i: int, b: u8)
    requires
        holds_response(frame),
        frame.len() == frame[2],
        0 <= i < frame.len() - 1,
        b != frame[i],
        !cuts_response_short(frame, i, b),
    ensures
        frame_response(frame.update(i, b)) is None,
{
    let changed = frame.update(i, b);
    let total = frame[2] as int;
    if i != 0 && i != 1 && i != 2 {
        lemma_checksum_detects_one_change(frame.take(total - 1), i, b);
        assert(changed.take(total - 1) =~= frame.take(total - 1).update(i, b));
    }
}

/// A frame whose length byte was lowered to a length at which the checksum
/// holds again is read as a shorter reply: the additive checksum does not
/// notice it.
pub proof fn lemma_response_cut_short_is_read(frame: Seq<u8>, b: u8)
    requires
        holds_response(frame),
        cuts_response_short(frame, 2, b),
    ensures
        frame_response(frame.update(2, b)) is Some,
{
}

} // verus!
