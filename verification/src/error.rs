//! The ways in which work with a device can fail.

use vstd::prelude::*;

verus! {

/// The place in the acceptance test at which the inputs are read.
#[derive(Copy, Clone, Debug, PartialEq, Eq, Structural)]
pub enum Checkpoint {
    /// Step 0: after all relays were switched off.
    AllOff,
    /// After the relay of this channel was switched on.
    Channel(u8),
}

/// Why a transaction, or a test made of transactions, failed.
#[derive(Copy, Clone, Debug, PartialEq, Eq, Structural)]
pub enum Error {
    /// The port failed to write, to read or to say how much it holds.
    IoError,
    /// The reply did not arrive in time.
    Timeout,
    /// What arrived is no reply: it is too short, does not begin as a frame
    /// does, declares a length that it can not have, or its checksum does not
    /// hold. `received` is the number of bytes that arrived.
    FrameError { received: usize },
    /// The acceptance test read other inputs than the relays should give.
    VerificationFailure { step: Checkpoint, expected: u8, actual: u8 },
    /// No port is open.
    NoConnection,
}

} // verus!
