//! The failures that the driver reports.

use crate::v5::protocol::VexACKType;
use vstd::prelude::*;

verus! {

/// Why an operation on a V5 device failed.
#[derive(Clone, Copy, Debug, PartialEq, Eq, Structural)]
pub enum V5Error {
    /// The underlying stream failed, or ended before a frame was whole.
    Io,
    /// No `AA 55` header arrived before the deadline.
    HeaderSyncTimeout,
    /// The CRC-16 over an inbound extended frame is not zero.
    CrcMismatch,
    /// The inbound opcode is unknown, or is not the kind that was expected.
    UnexpectedOpcode,
    /// The acknowledgement byte is none of the defined codes.
    UnknownAck(u8),
    /// The device refused the request; the code is never `ACK`.
    Nack(VexACKType),
    /// The operation is not valid in the current state of the session or handle.
    ProtocolState,
    /// A file name holds a non-ASCII byte or is longer than 23 bytes.
    InvalidName,
    /// The length of a raw read or write is not a multiple of four.
    LengthModFour,
    /// No V5 device is attached.
    NoDevices,
    /// More than one V5 device is attached and none was chosen.
    Ambiguous,
    /// The user declined to go on.
    UserAborted,
    /// A payload is longer than a packet can carry, or shorter than its layout.
    InvalidPayloadLength,
    /// The device holds no file of the requested name.
    FileNotFound,
    /// The version reply names a product that is neither brain nor controller.
    InvalidProduct(u8),
    /// A transfer would run past the end of the 32-bit address space.
    AddressOverflow,
    /// A time cannot be written as a date, or lies outside the years that
    /// a file can be stamped with.
    InvalidTime,
}

impl V5Error {
    /// Whether the session is of no use after this failure and has to
    /// be closed and found again: a reply that fails its checksum, an
    /// acknowledgement that is no code at all, or an operation out of
    /// turn.
    pub open spec fn spec_is_fatal(self) -> bool {
        self == V5Error::CrcMismatch || self is UnknownAck || self == V5Error::ProtocolState
    }

    /// Whether the session is of no use after this failure.
    pub fn is_fatal(&self) -> (fatal: bool)
        ensures
            fatal == self.spec_is_fatal(),
    {
        match self {
            V5Error::CrcMismatch => true,
            V5Error::UnknownAck(_) => true,
            V5Error::ProtocolState => true,
            _ => false,
        }
    }
}

} // verus!
