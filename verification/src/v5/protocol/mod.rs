//! Opcodes, acknowledgement codes and the packet transport.

pub mod vex;

pub use vex::VexProtocolWrapper;


use vstd::prelude::*;

verus! {

/// The role of a serial endpoint of a V5 device.
#[derive(Clone, Copy, Debug, PartialEq, Eq, Structural)]
pub enum VexDeviceType {
    User,
    System,
    Joystick,
    Unknown,
}

/// The acknowledgement byte that opens the payload of every extended
/// reply: `ACK`, or one of the fourteen refusals, which take every byte
/// from `0xCE` to `0xDB`.
#[derive(Clone, Copy, Debug, PartialEq, Eq, Structural)]
pub enum VexACKType {
    ACK,
    NACKCrcError,
    /// The refusal `0xCF`, of which the protocol says no more than that
    /// it is one.
    NACKUnspecified,
    NACKPayloadShort,
    NACKTransferSizeTooLarge,
    NACKProgramCrcFailed,
    NACKProgramFileError,
    NACKUninitializedTransfer,
    NACKInitializationInvalid,
    NACKLengthModFourNzero,
    NACKAddrNoMatch,
    NACKDownloadLengthNoMatch,
    NACKDirectoryNoExist,
    NACKNoFileRoom,
    NACKFileAlreadyExists,
}

impl VexACKType {
    /// The byte that stands for this code on the wire.
    pub open spec fn spec_code(self) -> u8 {
        match self {
            VexACKType::ACK => 0x76,
            VexACKType::NACKCrcError => 0xCE,
            VexACKType::NACKUnspecified => 0xCF,
            VexACKType::NACKPayloadShort => 0xD0,
            VexACKType::NACKTransferSizeTooLarge => 0xD1,
            VexACKType::NACKProgramCrcFailed => 0xD2,
            VexACKType::NACKProgramFileError => 0xD3,
            VexACKType::NACKUninitializedTransfer => 0xD4,
            VexACKType::NACKInitializationInvalid => 0xD5,
            VexACKType::NACKLengthModFourNzero => 0xD6,
            VexACKType::NACKAddrNoMatch => 0xD7,
            VexACKType::NACKDownloadLengthNoMatch => 0xD8,
            VexACKType::NACKDirectoryNoExist => 0xD9,
            VexACKType::NACKNoFileRoom => 0xDA,
            VexACKType::NACKFileAlreadyExists => 0xDB,
        }
    }

    /// The code that `value` stands for, if it stands for one.
    pub open spec fn spec_from_u8(value: u8) -> Option<VexACKType> {
        if value == 0x76 {
            Some(VexACKType::ACK)
        } else if value == 0xCE {
            Some(VexACKType::NACKCrcError)
        } else if value == 0xCF {
            Some(VexACKType::NACKUnspecified)
        } else if value == 0xD0 {
            Some(VexACKType::NACKPayloadShort)
        } else if value == 0xD1 {
            Some(VexACKType::NACKTransferSizeTooLarge)
        } else if value == 0xD2 {
            Some(VexACKType::NACKProgramCrcFailed)
        } else if value == 0xD3 {
            Some(VexACKType::NACKProgramFileError)
        } else if value == 0xD4 {
            Some(VexACKType::NACKUninitializedTransfer)
        } else if value == 0xD5 {
            Some(VexACKType::NACKInitializationInvalid)
        } else if value == 0xD6 {
            Some(VexACKType::NACKLengthModFourNzero)
        } else if value == 0xD7 {
            Some(VexACKType::NACKAddrNoMatch)
        } else if value == 0xD8 {
            Some(VexACKType::NACKDownloadLengthNoMatch)
        } else if value == 0xD9 {
            Some(VexACKType::NACKDirectoryNoExist)
        } else if value == 0xDA {
            Some(VexACKType::NACKNoFileRoom)
        } else if value == 0xDB {
            Some(VexACKType::NACKFileAlreadyExists)
        } else {
            None
        }
    }

    /// The byte that stands for this code on the wire.
    pub fn code(self) -> (value: u8)
        ensures
            value == self.spec_code(),
    {
        match self {
            VexACKType::ACK => 0x76,
            VexACKType::NACKCrcError => 0xCE,
            VexACKType::NACKUnspecified => 0xCF,
            VexACKType::NACKPayloadShort => 0xD0,
            VexACKType::NACKTransferSizeTooLarge => 0xD1,
            VexACKType::NACKProgramCrcFailed => 0xD2,
            VexACKType::NACKProgramFileError => 0xD3,
            VexACKType::NACKUninitializedTransfer => 0xD4,
            VexACKType::NACKInitializationInvalid => 0xD5,
            VexACKType::NACKLengthModFourNzero => 0xD6,
            VexACKType::NACKAddrNoMatch => 0xD7,
            VexACKType::NACKDownloadLengthNoMatch => 0xD8,
            VexACKType::NACKDirectoryNoExist => 0xD9,
            VexACKType::NACKNoFileRoom => 0xDA,
            VexACKType::NACKFileAlreadyExists => 0xDB,
        }
    }

    /// Reads an acknowledgement byte.
    pub fn from_u8(value: u8) -> (ack: Option<VexACKType>)
        ensures
            ack == VexACKType::spec_from_u8(value),
    {
        match value {
            0x76 => Some(VexACKType::ACK),
            0xCE => Some(VexACKType::NACKCrcError),
            0xCF => Some(VexACKType::NACKUnspecified),
            0xD0 => Some(VexACKType::NACKPayloadShort),
            0xD1 => Some(VexACKType::NACKTransferSizeTooLarge),
            0xD2 => Some(VexACKType::NACKProgramCrcFailed),
            0xD3 => Some(VexACKType::NACKProgramFileError),
            0xD4 => Some(VexACKType::NACKUninitializedTransfer),
            0xD5 => Some(VexACKType::NACKInitializationInvalid),
            0xD6 => Some(VexACKType::NACKLengthModFourNzero),
            0xD7 => Some(VexACKType::NACKAddrNoMatch),
            0xD8 => Some(VexACKType::NACKDownloadLengthNoMatch),
            0xD9 => Some(VexACKType::NACKDirectoryNoExist),
            0xDA => Some(VexACKType::NACKNoFileRoom),
            0xDB => Some(VexACKType::NACKFileAlreadyExists),
            _ => None,
        }
    }
}

/// Reading the byte of a code gives the code back, and a byte that reads
/// as a code is the byte of that code.
pub proof fn lemma_ack_code_round_trip(ack: VexACKType, value: u8)
    ensures
        VexACKType::spec_from_u8(ack.spec_code()) == Some(ack),
        VexACKType::spec_from_u8(value) matches Some(a) ==> a.spec_code() == value,
{
}

/// A byte is an acknowledgement code exactly when it is `0x76` or lies
/// from `0xCE` to `0xDB`, and only `0x76` stands for `ACK`.
pub proof fn lemma_ack_codes(value: u8)
    ensures
        VexACKType::spec_from_u8(value) is Some <==> value == 0x76 || 0xCE <= value <= 0xDB,
        VexACKType::spec_from_u8(value) == Some(VexACKType::ACK) <==> value == 0x76,
{
}

/// A protocol opcode.
#[derive(Clone, Copy, Debug, PartialEq, Eq, Structural)]
pub enum VexDeviceCommand {
    SwitchChannel,
    OpenFile,
    ExitFile,
    WriteFile,
    ReadFile,
    SetLinkedFilename,
    ExecuteFile,
    GetMetadataByFilename,
    Extended,
    GetSystemVersion,
}

impl VexDeviceCommand {
    /// The byte that stands for this opcode on the wire.
    pub open spec fn spec_code(self) -> u8 {
        match self {
            VexDeviceCommand::SwitchChannel => 0x10,
            VexDeviceCommand::OpenFile => 0x11,
            VexDeviceCommand::ExitFile => 0x12,
            VexDeviceCommand::WriteFile => 0x13,
            VexDeviceCommand::ReadFile => 0x14,
            VexDeviceCommand::SetLinkedFilename => 0x15,
            VexDeviceCommand::ExecuteFile => 0x18,
            VexDeviceCommand::GetMetadataByFilename => 0x19,
            VexDeviceCommand::Extended => 0x56,
            VexDeviceCommand::GetSystemVersion => 0xA4,
        }
    }

    /// The opcode that `value` stands for, if it stands for one.
    pub open spec fn spec_from_u8(value: u8) -> Option<VexDeviceCommand> {
        if value == 0x10 {
            Some(VexDeviceCommand::SwitchChannel)
        } else if value == 0x11 {
            Some(VexDeviceCommand::OpenFile)
        } else if value == 0x12 {
            Some(VexDeviceCommand::ExitFile)
        } else if value == 0x13 {
            Some(VexDeviceCommand::WriteFile)
        } else if value == 0x14 {
            Some(VexDeviceCommand::ReadFile)
        } else if value == 0x15 {
            Some(VexDeviceCommand::SetLinkedFilename)
        } else if value == 0x18 {
            Some(VexDeviceCommand::ExecuteFile)
        } else if value == 0x19 {
            Some(VexDeviceCommand::GetMetadataByFilename)
        } else if value == 0x56 {
            Some(VexDeviceCommand::Extended)
        } else if value == 0xA4 {
            Some(VexDeviceCommand::GetSystemVersion)
        } else {
            None
        }
    }

    /// The byte that stands for this opcode on the wire.
    pub fn code(self) -> (value: u8)
        ensures
            value == self.spec_code(),
    {
        match self {
            VexDeviceCommand::SwitchChannel => 0x10,
            VexDeviceCommand::OpenFile => 0x11,
            VexDeviceCommand::ExitFile => 0x12,
            VexDeviceCommand::WriteFile => 0x13,
            VexDeviceCommand::ReadFile => 0x14,
            VexDeviceCommand::SetLinkedFilename => 0x15,
            VexDeviceCommand::ExecuteFile => 0x18,
            VexDeviceCommand::GetMetadataByFilename => 0x19,
            VexDeviceCommand::Extended => 0x56,
            VexDeviceCommand::GetSystemVersion => 0xA4,
        }
    }

    /// Reads an opcode byte.
    pub fn from_u8(value: u8) -> (command: Option<VexDeviceCommand>)
        ensures
            command == VexDeviceCommand::spec_from_u8(value),
    {
        match value {
            0x10 => Some(VexDeviceCommand::SwitchChannel),
            0x11 => Some(VexDeviceCommand::OpenFile),
            0x12 => Some(VexDeviceCommand::ExitFile),
            0x13 => Some(VexDeviceCommand::WriteFile),
            0x14 => Some(VexDeviceCommand::ReadFile),
            0x15 => Some(VexDeviceCommand::SetLinkedFilename),
            0x18 => Some(VexDeviceCommand::ExecuteFile),
            0x19 => Some(VexDeviceCommand::GetMetadataByFilename),
            0x56 => Some(VexDeviceCommand::Extended),
            0xA4 => Some(VexDeviceCommand::GetSystemVersion),
            _ => None,
        }
    }
}

/// Reading the byte of an opcode gives the opcode back, and a byte that
/// reads as an opcode is the byte of that opcode.
pub proof fn lemma_command_code_round_trip(command: VexDeviceCommand, value: u8)
    ensures
        VexDeviceCommand::spec_from_u8(command.spec_code()) == Some(command),
        VexDeviceCommand::spec_from_u8(value) matches Some(c) ==> c.spec_code() == value,
{
}

/// What the brain does once a file transfer has been closed.
#[derive(Clone, Copy, Debug, PartialEq, Eq, Structural)]
pub enum VexFiletransferFinished {
    DoNothing,
    RunProgram,
    ShowRunScreen,
}

impl VexFiletransferFinished {
    /// The byte sent with `ExitFile`.
    pub open spec fn spec_code(self) -> u8 {
        match self {
            VexFiletransferFinished::DoNothing => 0b00,
            VexFiletransferFinished::RunProgram => 0b01,
            VexFiletransferFinished::ShowRunScreen => 0b11,
        }
    }

    /// The byte sent with `ExitFile`.
    pub fn code(self) -> (value: u8)
        ensures
            value == self.spec_code(),
    {
        match self {
            VexFiletransferFinished::DoNothing => 0b00,
            VexFiletransferFinished::RunProgram => 0b01,
            VexFiletransferFinished::ShowRunScreen => 0b11,
        }
    }
}

impl Default for VexFiletransferFinished {
    fn default() -> (disposition: Self)
        ensures
            disposition == VexFiletransferFinished::DoNothing,
    {
        VexFiletransferFinished::DoNothing
    }
}

} // verus!
