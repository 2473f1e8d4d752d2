//! MBLP: a point-to-point request/response protocol spoken over a serial link
//! to a relay and input device.
//!
//! The crate holds three things, each built on the one before:
//!
//! - the frame codec: [`checksum`], [`code`], [`command`] and [`response`]
//!   write and read the frames of the protocol;
//! - the transaction engine, [`engine`], which carries one command to the
//!   device and its reply back;
//! - the acceptance test, [`sequencer`], which exercises the four relay
//!   channels of a device, and the single operations of [`device`].
//!
//! Engine and test are state machines. They decide; whoever owns the serial
//! port performs what they ask for and reports what came of it. Nothing in
//! this crate touches a port or sleeps.
//!
//! Around them stand [`request`], the requests that the station takes,
//! [`model`] with its [`journal`] and its [`clock`], the state that the
//! station shows, and [`address`], the address of a device as it is typed.
//!
//! Three outside crates are called, and what is said of them is believed, not
//! proved: `array_init` in [`arrays`], `heapless` in [`journal`] and `time` in
//! [`clock`].

pub mod address;
pub mod arrays;
pub mod checksum;
pub mod clock;
pub mod code;
pub mod command;
pub mod device;
pub mod engine;
pub mod error;
pub mod journal;
pub mod model;
pub mod request;
pub mod response;
pub mod sequencer;
pub mod wire;
