//! What the station asks of one device, and what it takes from the replies.
//!
//! A device is addressed by its serial number: the four bytes of its address
//! are the serial number, highest byte first.

use vstd::prelude::*;
use crate::code::Code;
use crate::engine::{station_frame, Phase, Request, RequestView, Transaction, TransactionView};
use crate::error::{Checkpoint, Error};
use crate::response::Response;
use crate::wire::RESPONSE_HEADER_LENGTH;

verus! {

/// The four bytes of the address of the device with serial number `serial`:
/// the serial number, highest byte first.
pub open spec fn address_of(serial: u32) -> Seq<u8> {
    seq![
        (serial / 0x100_0000) as u8,
        (serial / 0x1_0000 % 0x100) as u8,
        (serial / 0x100 % 0x100) as u8,
        (serial % 0x100) as u8,
    ]
}

/// The serial number that four address bytes stand for.
pub open spec fn serial_of(bytes: Seq<u8>) -> u32 {
    (bytes[0] as int * 0x100_0000 + bytes[1] as int * 0x1_0000 + bytes[2] as int * 0x100
        + bytes[3] as int) as u32
}

/// The address of the device with serial number `serial`.
pub fn address_bytes(serial: u32) -> (address: [u8; 4])
    ensures
        address@ == address_of(serial),
{
    let address: [u8; 4] = [
        (serial / 0x100_0000) as u8,
        (serial / 0x1_0000 % 0x100) as u8,
        (serial / 0x100 % 0x100) as u8,
        (serial % 0x100) as u8,
    ];
    address
}

/// The serial number of the device with address `address`.
pub fn serial_number(address: [u8; 4]) -> (serial: u32)
    ensures
        serial == serial_of(address@),
{
    address[0] as u32 * 0x100_0000 + address[1] as u32 * 0x1_0000 + address[2] as u32 * 0x100
        + address[3] as u32
}

/// A serial number survives being turned into an address and back.
pub proof fn lemma_serial_round_trip(serial: u32)
    ensures
        address_of(serial).len() == 4,
        serial_of(address_of(serial)) == serial,
{
}

/// An address survives being turned into a serial number and back.
pub proof fn lemma_address_round_trip(bytes: Seq<u8>)
    requires
        bytes.len() == 4,
    ensures
        address_of(serial_of(bytes)) == bytes,
{
    let b0 = bytes[0] as int;
    let b1 = bytes[1] as int;
    let b2 = bytes[2] as int;
    let b3 = bytes[3] as int;
    let all = b0 * 0x100_0000 + b1 * 0x1_0000 + b2 * 0x100 + b3;
    assert(serial_of(bytes) == all);
    assert(all % 0x100 == b3 && all / 0x100 == b0 * 0x1_0000 + b1 * 0x100 + b2);
    assert((all / 0x100) % 0x100 == b2);
    assert(all / 0x1_0000 == b0 * 0x100 + b1);
    assert((all / 0x1_0000) % 0x100 == b1);
    assert(all / 0x100_0000 == b0);
    assert(address_of(serial_of(bytes)) =~= bytes);
}

/// What the station can ask of a device with one command.
#[derive(Copy, Clone, Debug, PartialEq, Eq, Structural)]
pub enum Operation {
    ReadFirmwareVersion,
    ReadSerialNumber,
    SetSerialNumber,
}

impl Operation {
    /// The code of the command that asks for the operation.
    pub open spec fn spec_code(self) -> Code {
        match self {
            Operation::ReadFirmwareVersion => Code::ReadFWVersion,
            Operation::ReadSerialNumber => Code::ReadAddress,
            Operation::SetSerialNumber => Code::SetAddress,
        }
    }

    /// The code of the command that asks for the operation.
    pub fn code(self) -> (code: Code)
        ensures
            code == self.spec_code(),
    {
        match self {
            Operation::ReadFirmwareVersion => Code::ReadFWVersion,
            Operation::ReadSerialNumber => Code::ReadAddress,
            Operation::SetSerialNumber => Code::SetAddress,
        }
    }

    /// Begins the transaction that asks the device at `destination` for the
    /// operation. The command carries the address of the device as its
    /// payload. Without an open port nothing is begun.
    pub fn begin(self, connected: bool, destination: [u8; 4]) -> (start: Result<
        (Transaction, Request),
        Error,
    >)
        ensures
            !connected ==> start == Err::<(Transaction, Request), Error>(Error::NoConnection),
            connected ==> (start matches Ok(pair) && pair.0@ == (TransactionView {
                phase: Phase::Flushing,
                code: self.spec_code(),
                frame: station_frame(self.spec_code(), destination@, destination@),
            }) && pair.1@ == RequestView::Flush),
    {
        if connected {
            Ok(Transaction::begin(self.code(), destination, &destination))
        } else {
            Err(Error::NoConnection)
        }
    }
}

/// The number of bytes of the frame that `reply` was read from.
pub open spec fn received_len(reply: Response) -> usize {
    (RESPONSE_HEADER_LENGTH + reply.data_len) as usize
}

/// What `firmware_version` gives for `reply`.
pub open spec fn firmware_version_of(reply: Response) -> Result<(u8, u8, u8), Error> {
    if reply.data_len > 3 {
        Ok((reply.data@[0], reply.data@[1], reply.data@[2]))
    } else {
        Err(Error::FrameError { received: received_len(reply) })
    }
}

/// What `device_serial_number` gives for `reply`.
pub open spec fn device_serial_number_of(reply: Response) -> Result<u32, Error> {
    if reply.data_len > 3 {
        Ok(serial_of(reply.data@.take(4)))
    } else {
        Err(Error::FrameError { received: received_len(reply) })
    }
}

/// What `check_input` gives for `reply`.
pub open spec fn input_check(reply: Response, step: Checkpoint, expected: u8) -> Result<
    (),
    Error,
> {
    if reply.data_len < 1 {
        Err(Error::FrameError { received: received_len(reply) })
    } else if reply.data@[0] != expected {
        Err(Error::VerificationFailure { step, expected, actual: reply.data@[0] })
    } else {
        Ok(())
    }
}

/// The firmware version in the reply to `ReadFWVersion`: the first three
/// bytes of a payload of four bytes or more. A shorter payload is a frame
/// error.
pub fn firmware_version(reply: &Response) -> (version: Result<(u8, u8, u8), Error>)
    ensures
        version == firmware_version_of(*reply),
{
    if reply.data_len > 3 {
        Ok((reply.data[0], reply.data[1], reply.data[2]))
    } else {
        Err(Error::FrameError { received: reply.data_len as usize + RESPONSE_HEADER_LENGTH })
    }
}

/// The serial number in the reply to `ReadAddress`: the first four bytes of
/// a payload of four bytes or more, highest byte first. A shorter payload is
/// a frame error.
pub fn device_serial_number(reply: &Response) -> (serial: Result<u32, Error>)
    ensures
        serial == device_serial_number_of(*reply),
{
    if reply.data_len > 3 {
        let address: [u8; 4] = [reply.data[0], reply.data[1], reply.data[2], reply.data[3]];
        Ok(serial_number(address))
    } else {
        Err(Error::FrameError { received: reply.data_len as usize + RESPONSE_HEADER_LENGTH })
    }
}

/// Holds the inputs in the reply to `ReadInput` against what they should be.
///
/// The inputs are the first byte of the payload. A reply without payload is a
/// frame error; other inputs than `expected` are a verification failure that
/// names `step` and both bytes.
pub fn check_input(reply: &Response, step: Checkpoint, expected: u8) -> (verdict: Result<
    (),
    Error,
>)
    ensures
        verdict == input_check(*reply, step, expected),
{
    if reply.data_len < 1 {
        Err(Error::FrameError { received: reply.data_len as usize + RESPONSE_HEADER_LENGTH })
    } else if reply.data[0] != expected {
        Err(Error::VerificationFailure { step, expected, actual: reply.data[0] })
    } else {
        Ok(())
    }
}

} // verus!
