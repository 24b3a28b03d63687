//! Host-side driver logic for the serial protocol of the VEX V5 brain.
//!
//! The library frames and checks the packets of the protocol, runs the
//! session with a device on top of them, moves files chunk by chunk,
//! and guards the radio channel of a controller for the length of a
//! transfer. It does no input or output of its own: the serial port is
//! a [`v5::protocol::vex::SerialLink`] that the caller supplies, and a
//! progress bar is a [`util::ProgressSink`].
//!
//! Nothing is assumed of a link. The transport keeps a record of every
//! write it handed to the link and of every read it got back, the
//! [`v5::protocol::vex::Trace`], and the contracts of the session say
//! what each operation adds to that record and how its result follows
//! from what the link returned.
//!
//! - [`checksum`]: CRC-16/XMODEM for packets, the V5 CRC-32 for files.
//! - [`bytes`]: integers as they lie in payloads.
//! - [`v5::protocol`]: opcodes, acknowledgement codes, packets, replies
//!   and the transport.
//! - [`v5::device`]: file metadata and versions, the session, the
//!   handle of an open file, and transfers through it.
//! - [`device_commands`]: the guarded use of a radio channel.
//! - [`file`]: the upload and the download of a whole file.
//! - [`upload`]: a program and its description into a slot.
//! - [`util`]: progress reports, and endpoints grouped into devices.
//! - [`cargo_toml`]: what a project manifest says of the program.
//! - [`error`]: the failures.

pub mod bytes;
pub mod cargo_toml;
pub mod checksum;
pub mod device_commands;
pub mod error;
pub mod file;
pub mod upload;
pub mod util;
pub mod v5;
