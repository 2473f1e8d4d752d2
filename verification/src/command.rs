//! The command frame: what the station sends to a device.
//!
//! | offset          | field                                  |
//! |-----------------|----------------------------------------|
//! | 0               | preamble, 0x02                         |
//! | 1               | 0x01                                   |
//! | 2               | length of the frame, 15 + payload      |
//! | 3               | 0x00                                   |
//! | 4..8            | destination address                    |
//! | 8..12           | source address                         |
//! | 12..14          | code, high byte first                  |
//! | 14..14+payload  | payload                                |
//! | 14+payload      | checksum of all bytes before it        |

use vstd::prelude::*;
use vstd::slice::slice_subrange;
use crate::arrays::window;
use crate::checksum::{checksum, crc, lemma_checksum_detects_one_change};
use crate::code::{code_of, join, value_of, Code, lemma_code_round_trip};
use crate::wire::{put_bytes, HEADER_LENGTH, NORMAL_COMMAND, PREAMBLE};

verus! {

/// The longest payload that a command frame can carry: with more, the length
/// of the frame would not fit into its one byte.
pub const MAX_COMMAND_PAYLOAD: usize = 240;

/// A command, as it is held in memory.
///
/// The payload is the first `data_len` bytes of `data`.
pub struct Command {
    pub data_len: u8,
    pub destination: [u8; 4],
    pub source: [u8; 4],
    pub code: Code,
    pub data: [u8; 256],
}

/// What a command says: the two addresses, the code and the payload.
pub struct CommandView {
    pub destination: Seq<u8>,
    pub source: Seq<u8>,
    pub code: Code,
    pub payload: Seq<u8>,
}

impl View for Command {
    type V = CommandView;

    open spec fn view(&self) -> CommandView {
        CommandView {
            destination: self.destination@,
            source: self.source@,
            code: self.code,
            payload: self.data@.take(self.data_len as int),
        }
    }
}

impl CommandView {
    /// The addresses have four bytes each, and the payload is one that a
    /// frame can carry.
    pub open spec fn fits_frame(self) -> bool {
        &&& self.destination.len() == 4
        &&& self.source.len() == 4
        &&& self.payload.len() <= MAX_COMMAND_PAYLOAD
    }
}

/// The byte at offset `i` of the frame of `c`, for an offset before the
/// checksum.
pub open spec fn command_body_byte(c: CommandView, i: int) -> u8 {
    if i == 0 {
        PREAMBLE
    } else if i == 1 {
        NORMAL_COMMAND
    } else if i == 2 {
        (HEADER_LENGTH + c.payload.len()) as u8
    } else if i == 3 {
        0
    } else if i < 8 {
        c.destination[i - 4]
    } else if i < 12 {
        c.source[i - 8]
    } else if i == 12 {
        (value_of(c.code) / 256) as u8
    } else if i == 13 {
        (value_of(c.code) % 256) as u8
    } else {
        c.payload[i - 14]
    }
}

/// The frame of `c` without its checksum.
pub open spec fn command_body(c: CommandView) -> Seq<u8> {
    Seq::new((14 + c.payload.len()) as nat, |i: int| command_body_byte(c, i))
}

/// The frame that `c` is sent as.
pub open spec fn command_frame(c: CommandView) -> Seq<u8> {
    command_body(c).push(checksum(command_body(c)))
}

/// `bytes` starts with a command frame: it has the least length and the
/// preamble, the length it declares is at least that of an empty command and
/// at most what `bytes` holds, and the last byte of that length is the checksum
/// of those before it.
pub open spec fn holds_command(bytes: Seq<u8>) -> bool {
    &&& bytes.len() >= HEADER_LENGTH
    &&& bytes[0] == PREAMBLE
    &&& bytes[2] >= HEADER_LENGTH
    &&& bytes.len() >= bytes[2]
    &&& bytes[bytes[2] - 1] == checksum(bytes.take(bytes[2] - 1))
}

/// The command that `bytes` starts with, if it starts with one.
pub open spec fn frame_command(bytes: Seq<u8>) -> Option<CommandView> {
    if holds_command(bytes) {
        Some(
            CommandView {
                destination: bytes.subrange(4, 8),
                source: bytes.subrange(8, 12),
                code: code_of(join(bytes[12], bytes[13])),
                payload: bytes.subrange(14, bytes[2] - 1),
            },
        )
    } else {
        None
    }
}

impl Command {
    /// The length of the shortest command frame.
    pub const MIN_PACKET_LEN: usize = 0x0F;

    /// Every byte of `data` after the payload is zero.
    pub open spec fn wf(&self) -> bool {
        forall|i: int| self.data_len <= i < 256 ==> self.data@[i] == 0
    }

    /// `out` is what parsing `bytes` gives: the command that `bytes` starts
    /// with, well formed, or nothing where it starts with none.
    pub open spec fn parsed(bytes: Seq<u8>, out: Option<Command>) -> bool {
        match out {
            Some(command) => command.wf() && frame_command(bytes) == Some(command@),
            None => frame_command(bytes) is None,
        }
    }

    /// A command with the given code, addresses and payload.
    pub fn new(code: Code, source: [u8; 4], destination: [u8; 4], data: &[u8]) -> (command:
        Command)
        requires
            data@.len() <= 255,
        ensures
            command.wf(),
            command.data_len == data@.len(),
            command@ == (CommandView {
                destination: destination@,
                source: source@,
                code,
                payload: data@,
            }),
    {
        let data_len: usize = data.len();
        let command = Command {
            data_len: data_len as u8,
            destination,
            source,
            code,
            data: window(data, 0, data_len),
        };
        assert(data@.subrange(0, data_len as int) =~= data@);
        command
    }

    /// Reads the command frame at the start of `buffer`.
    ///
    /// Returns nothing where `buffer` does not start with a frame whose
    /// checksum holds; a caller can not tell that from a frame that has not
    /// arrived yet. Bytes of `buffer` after the frame are not looked at.
    pub fn parse(buffer: &[u8]) -> (out: Option<Command>)
        ensures
            Command::parsed(buffer@, out),
    {
        if buffer.len() < Self::MIN_PACKET_LEN {
            return None;
        }
        if buffer[0] == PREAMBLE {
            let len: u8 = buffer[2];
            let total: usize = len as usize;
            if total < Self::MIN_PACKET_LEN {
                return None;
            }
            if buffer.len() >= total {
                let sum: u8 = crc(slice_subrange(buffer, 0, total - 1));
                if buffer[total - 1] == sum {
                    let count: usize = total - Self::MIN_PACKET_LEN;
                    let command = Command {
                        data_len: len - 15,
                        destination: window(buffer, 4, 4),
                        source: window(buffer, 8, 4),
                        code: Code::from((buffer[12], buffer[13])),
                        data: window(buffer, 14, count),
                    };
                    proof {
                        assert(command.destination@ =~= buffer@.subrange(4, 8));
                        assert(command.source@ =~= buffer@.subrange(8, 12));
                    }
                    return Some(command);
                }
            }
        }
        None
    }

    /// Writes the frame of the command to the start of `buffer` and returns
    /// its length. The rest of `buffer` is left as it was.
    pub fn serialize(self, buffer: &mut [u8]) -> (len: usize)
        requires
            self.data_len <= MAX_COMMAND_PAYLOAD,
            old(buffer)@.len() >= HEADER_LENGTH + self.data_len,
        ensures
            len == HEADER_LENGTH + self.data_len,
            final(buffer)@.len() == old(buffer)@.len(),
            final(buffer)@.take(len as int) == command_frame(self@),
            final(buffer)@.skip(len as int) == old(buffer)@.skip(len as int),
    {
        let dlen: usize = self.data_len as usize;
        let cmdcode: u16 = self.code.into();
        buffer[0] = PREAMBLE;
        buffer[1] = NORMAL_COMMAND;
        buffer[2] = 15 + self.data_len;
        buffer[3] = 0;
        put_bytes(buffer, 4, &self.destination, 4);
        put_bytes(buffer, 8, &self.source, 4);
        buffer[12] = (cmdcode / 256) as u8;
        buffer[13] = (cmdcode % 256) as u8;
        put_bytes(buffer, 14, &self.data, dlen);
        let c: u8 = crc(slice_subrange(buffer, 0, 14 + dlen));
        proof {
            assert(buffer@.subrange(0, 14 + dlen) =~= command_body(self@));
        }
        buffer[14 + dlen] = c;
        dlen + HEADER_LENGTH
    }
}

/// A command that is sent and read again comes back as it was, whatever
/// follows its frame in the buffer: the addresses, the code and the payload
/// are those that were sent.
///
/// This holds of every payload that a frame can carry and of every code that
/// reading can give.
pub proof fn lemma_command_round_trip(c: CommandView, rest: Seq<u8>)
    requires
        c.fits_frame(),
        c.code.canonical(),
    ensures
        frame_command(command_frame(c) + rest) == Some(c),
{
    let bytes = command_frame(c) + rest;
    let total = 15 + c.payload.len();
    assert(bytes.take(total - 1) =~= command_body(c));
    lemma_code_round_trip(c.code);
    assert(bytes.subrange(4, 8) =~= c.destination);
    assert(bytes.subrange(8, 12) =~= c.source);
    assert(bytes.subrange(14, total - 1) =~= c.payload);
}

/// A command that is written to a buffer and parsed from it comes back equal
/// field by field.
pub proof fn lemma_command_survives_wire(command: Command, buffer: Seq<u8>, out: Option<Command>)
    requires
        command.wf(),
        command.data_len <= MAX_COMMAND_PAYLOAD,
        command.code.canonical(),
        buffer.len() >= HEADER_LENGTH + command.data_len,
        buffer.take(HEADER_LENGTH + command.data_len) == command_frame(command@),
        Command::parsed(buffer, out),
    ensures
        out == Some(command),
{
    let total = HEADER_LENGTH + command.data_len;
    assert(buffer =~= command_frame(command@) + buffer.skip(total));
    lemma_command_round_trip(command@, buffer.skip(total));
    let got = out->Some_0;
    assert(got.data_len == command.data_len);
    assert(got.destination =~= command.destination);
    assert(got.source =~= command.source);
    assert forall|i: int| 0 <= i < 256 implies got.data@[i] == command.data@[i] by {
        if i < command.data_len {
            assert(got.data@[i] == got@.payload[i]);
        }
    }
    assert(got.data =~= command.data);
}

/// Changing the byte at `i` of `frame` to `b` cuts the frame short: the byte
/// is the one that holds the length, the new length is one that a command can
/// have and is less than the old, and the byte that now stands last happens to
/// be the checksum of those before it.
pub open spec fn cuts_command_short(frame: Seq<u8>, i: int, b: u8) -> bool {
    &&& i == 2
    &&& HEADER_LENGTH <= b < frame[2]
    &&& frame[b - 1] == checksum(frame.update(2, b).take(b - 1))
}

/// A frame in which one byte before the checksum was changed is rejected.
///
/// The one change that can pass is a length byte lowered to a length at which
/// the checksum holds again; see [`lemma_command_cut_short_is_read`].
pub proof fn lemma_command_corruption_rejected(frame: Seq<u8>, i: int, b: u8)
    requires
        holds_command(frame),
        frame.len() == frame[2],
        0 <= i < frame.len() - 1,
        b != frame[i],
        !cuts_command_short(frame, i, b),
    ensures
        frame_command(frame.update(i, b)) is None,
{
    let changed = frame.update(i, b);
    let total = frame[2] as int;
    if i != 0 && i != 2 {
        lemma_checksum_detects_one_change(frame.take(total - 1), i, b);
        assert(changed.take(total - 1) =~= frame.take(total - 1).update(i, b));
    }
}

/// A frame whose length byte was lowered to a length at which the checksum
/// holds again is read as a shorter command: the additive checksum does not
/// notice it.
pub proof fn lemma_command_cut_short_is_read(frame: Seq<u8>, b: u8)
    requires
        holds_command(frame),
        cuts_command_short(frame, 2, b),
    ensures
        frame_command(frame.update(2, b)) is Some,
{
}

} // verus!
