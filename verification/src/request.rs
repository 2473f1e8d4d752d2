//! What the station is asked to do, and the work with the device that each
//! request stands for.

use vstd::prelude::*;
use crate::device::{address_bytes, address_of, Operation};

verus! {

/// The time in milliseconds that the station waits for a request before it
/// turns to its other work.
pub const REQUEST_WAIT_MS: u64 = 100;

/// The time in milliseconds after which the station lists the serial ports
/// anew.
pub const PORT_REFRESH_MS: u64 = 500;

/// A request to the station. Where it names a device, it does so by the
/// serial number.
pub enum Message {
    ConnectToPort(String),
    SetSerialNumber(u32),
    ReadSerialNumber(u32),
    ReadFWVersion(u32),
    DeviceAddress(String),
    Test(u32),
}

/// Work with a device: one operation, or the acceptance test.
#[derive(Copy, Clone, Debug, PartialEq, Eq, Structural)]
pub enum Work {
    Single(Operation),
    AcceptanceTest,
}

impl Message {
    /// The work that the request stands for, and the address of the device
    /// that it is done with; nothing where the request asks nothing of a
    /// device.
    ///
    /// A request to connect stands for reading the serial number of whatever
    /// device answers to the address of four zeros, once the port is open.
    pub open spec fn spec_work(&self) -> Option<(Work, Seq<u8>)> {
        match *self {
            Message::ConnectToPort(_) => Some(
                (Work::Single(Operation::ReadSerialNumber), address_of(0)),
            ),
            Message::SetSerialNumber(serial) => Some(
                (Work::Single(Operation::SetSerialNumber), address_of(serial)),
            ),
            Message::ReadSerialNumber(serial) => Some(
                (Work::Single(Operation::ReadSerialNumber), address_of(serial)),
            ),
            Message::ReadFWVersion(serial) => Some(
                (Work::Single(Operation::ReadFirmwareVersion), address_of(serial)),
            ),
            Message::DeviceAddress(_) => None,
            Message::Test(serial) => Some((Work::AcceptanceTest, address_of(serial))),
        }
    }

    /// The work that the request stands for, and the address of the device
    /// that it is done with; nothing where the request asks nothing of a
    /// device.
    pub fn work(&self) -> (work: Option<(Work, [u8; 4])>)
        ensures
            match work {
                Some((kind, address)) => self.spec_work() == Some((kind, address@)),
                None => self.spec_work() is None,
            },
    {
        match self {
            Message::ConnectToPort(_) => Some(
                (Work::Single(Operation::ReadSerialNumber), address_bytes(0)),
            ),
            Message::SetSerialNumber(serial) => Some(
                (Work::Single(Operation::SetSerialNumber), address_bytes(*serial)),
            ),
            Message::ReadSerialNumber(serial) => Some(
                (Work::Single(Operation::ReadSerialNumber), address_bytes(*serial)),
            ),
            Message::ReadFWVersion(serial) => Some(
                (Work::Single(Operation::ReadFirmwareVersion), address_bytes(*serial)),
            ),
            Message::DeviceAddress(_) => None,
            Message::Test(serial) => Some((Work::AcceptanceTest, address_bytes(*serial))),
        }
    }
}

} // verus!
