//! The session with one V5 device, and the handle of an open file.

use crate::error::V5Error;
use crate::v5::device::{
    encode_name, encode_read, encode_write, is_ascii_bytes, is_valid_name, name_field, pad4,
    padded_chunk, read_payload, truncate_name, write_payload, zero_padded, V5ControllerChannel,
    V5DeviceVersion, VexFileMetadata, VexFiletransferMetadata, VexInitialFileMetadata, VexVID,
};
use crate::v5::protocol::vex::{
    copy_range, decode_simple, effective_timeout, extended_frame, extended_outcome,
    lemma_took_one, simple_packet, ReadOutcome, ResponseCheckFlags, SerialLink, Trace,
    DEFAULT_TIMEOUT_MS,
};
use crate::v5::protocol::{
    VexACKType, VexDeviceCommand, VexFiletransferFinished, VexProtocolWrapper,
};
use vstd::prelude::*;
use vstd::string::StringSliceAdditionalSpecFns;

verus! {

/// The reply deadline of a controller that is connected to a brain, in
/// milliseconds.
pub const WIRELESS_TIMEOUT_MS: u64 = 5000;

/// Both checks: acknowledgement and checksum.
pub open spec fn check_all() -> ResponseCheckFlags {
    ResponseCheckFlags { ack: true, crc: true }
}

/// The checksum alone.
pub open spec fn check_crc() -> ResponseCheckFlags {
    ResponseCheckFlags { ack: false, crc: true }
}

/// The view of the payload that a request gave.
pub open spec fn payload_view(r: Result<Vec<u8>, V5Error>) -> Result<Seq<u8>, V5Error> {
    match r {
        Ok(payload) => Ok(payload@),
        Err(e) => Err(e),
    }
}

/// Whether `later` is `earlier` after the extended request of `code`
/// with `payload`, whose reply was given the deadline `timeout`: one
/// exchange, or nothing at all where the payload is too long for a
/// packet.
pub open spec fn requested(
    earlier: Trace,
    later: Trace,
    code: u8,
    payload: Seq<u8>,
    timeout: Option<u64>,
) -> bool {
    if payload.len() > 0xFFFF {
        later == earlier
    } else {
        earlier.exchange(later, extended_frame(code, payload), effective_timeout(timeout))
    }
}

/// The payload that the last extended request of `later` gave, where
/// that request had a payload of `len` bytes and its reply had to pass
/// `flags`.
pub open spec fn request_outcome(later: Trace, len: nat, flags: ResponseCheckFlags) -> Result<
    Seq<u8>,
    V5Error,
> {
    if len > 0xFFFF {
        Err(V5Error::InvalidPayloadLength)
    } else {
        match extended_outcome(later.last_reply(), flags) {
            Ok(reply) => Ok(reply.payload),
            Err(e) => Err(e),
        }
    }
}

/// What the reply to `GetSystemVersion` says: a simple reply whose
/// payload holds the version.
pub open spec fn version_outcome(outcome: ReadOutcome) -> Result<V5DeviceVersion, V5Error> {
    match outcome {
        Err(e) => Err(e),
        Ok(bytes) => match decode_simple(bytes) {
            Err(e) => Err(e),
            Ok(reply) => if reply.command == VexDeviceCommand::Extended {
                Err(V5Error::UnexpectedOpcode)
            } else {
                V5DeviceVersion::parse(reply.payload)
            },
        },
    }
}

/// Reads the version out of a decoded simple reply.
pub fn version_from_reply(command: VexDeviceCommand, payload: &[u8]) -> (r: Result<
    V5DeviceVersion,
    V5Error,
>)
    ensures
        r == if command == VexDeviceCommand::Extended {
            Err::<V5DeviceVersion, V5Error>(V5Error::UnexpectedOpcode)
        } else {
            V5DeviceVersion::parse(payload@)
        },
{
    match command {
        VexDeviceCommand::Extended => Err(V5Error::UnexpectedOpcode),
        _ => V5DeviceVersion::from_payload(payload),
    }
}

/// The deadline that a session takes from the version it found when it
/// was made: five seconds for a controller that is connected to a
/// brain, none otherwise.
pub open spec fn session_timeout(version: Result<V5DeviceVersion, V5Error>) -> Option<u64> {
    match version {
        Ok(v) => if v.product_type.spec_is_wireless() {
            Some(WIRELESS_TIMEOUT_MS)
        } else {
            None
        },
        Err(_) => None,
    }
}

/// What the metadata query gives for the payload of its reply: the
/// device's refusal for want of the file is `FileNotFound`.
pub open spec fn metadata_error(e: V5Error) -> V5Error {
    if e == V5Error::Nack(VexACKType::NACKDirectoryNoExist) {
        V5Error::FileNotFound
    } else {
        e
    }
}

/// The bytes of a file name as they are held against the name rules.
pub open spec fn name_bytes(name: &String) -> Seq<u8> {
    vstd::utf8::encode_utf8(name@)
}

/// What the reply to `GetMetadataByFilename` says, where `later` ends
/// in that request.
pub open spec fn metadata_outcome(later: Trace) -> Result<Seq<u8>, V5Error> {
    match request_outcome(later, 26, check_all()) {
        Err(e) => Err(metadata_error(e)),
        Ok(payload) => if payload.len() < 49 {
            Err(V5Error::InvalidPayloadLength)
        } else {
            Ok(payload)
        },
    }
}

/// Whether `later` is `earlier` after the query for the metadata of
/// the file with the name field `name`, with the outcome `r`.
pub open spec fn queried(
    earlier: Trace,
    later: Trace,
    r: Result<VexFileMetadata, V5Error>,
    vid: VexVID,
    options: u8,
    name: Seq<u8>,
) -> bool {
    &&& requested(
        earlier,
        later,
        VexDeviceCommand::GetMetadataByFilename.spec_code(),
        VexFileMetadata::query_payload(vid, options, name),
        None,
    )
    &&& match metadata_outcome(later) {
        Ok(payload) => r is Ok && r->Ok_0.describes(payload),
        Err(e) => r == Err::<VexFileMetadata, V5Error>(e),
    }
}

/// What the reply to `OpenFile` says, where `later` ends in that
/// request.
pub open spec fn open_outcome(later: Trace) -> Result<VexFiletransferMetadata, V5Error> {
    match request_outcome(later, 52, check_all()) {
        Err(e) => Err(e),
        Ok(payload) => match VexFiletransferMetadata::parse(payload) {
            Some(metadata) => Ok(metadata),
            None => Err(V5Error::InvalidPayloadLength),
        },
    }
}

/// What the reply to a `ReadFile` of `length` bytes gives, where
/// `later` ends in that request: the payload without the four bytes of
/// echoed address that open it.
pub open spec fn read_outcome(later: Trace, length: nat) -> Result<Seq<u8>, V5Error> {
    match request_outcome(later, 6, check_crc()) {
        Err(e) => Err(e),
        Ok(payload) => if payload.len() < 4 + length {
            Err(V5Error::InvalidPayloadLength)
        } else {
            Ok(payload.subrange(4, 4 + length as int))
        },
    }
}

/// What the reply to a request without an answer of its own says,
/// where `later` ends in that request with a payload of `len` bytes.
pub open spec fn done_outcome(later: Trace, len: nat) -> Result<(), V5Error> {
    match request_outcome(later, len, check_all()) {
        Ok(_) => Ok(()),
        Err(e) => Err(e),
    }
}

/// The session with one V5 device: the transport, the reply deadline,
/// and whether a file is open.
pub struct VexV5Device<T: SerialLink> {
    wraps: VexProtocolWrapper<T>,
    timeout: Option<u64>,
    open: bool,
    link_names: bool,
    guarded: bool,
}

impl<T: SerialLink> VexV5Device<T> {
    /// All that has passed between this session and its link.
    pub closed spec fn trace(&self) -> Trace {
        self.wraps.trace()
    }

    /// The reply deadline of this session in milliseconds, if it has one.
    pub closed spec fn spec_timeout(&self) -> Option<u64> {
        self.timeout
    }

    /// Whether a file is open.
    pub closed spec fn spec_is_open(&self) -> bool {
        self.open
    }

    /// Whether an upload in this session is followed by
    /// `SetLinkedFilename` once its file is open.
    pub closed spec fn spec_links_names(&self) -> bool {
        self.link_names
    }

    /// Whether a guarded block is under way: the radio channel has been
    /// taken for a transfer and not yet given back.
    pub closed spec fn spec_is_guarded(&self) -> bool {
        self.guarded
    }

    /// Whether `later` is this session but for what is open and the
    /// trace: with the same deadline, the same choice about linked
    /// names, and guarded or not as this one.
    pub open spec fn same_settings(&self, later: &Self) -> bool {
        &&& later.spec_timeout() == self.spec_timeout()
        &&& later.spec_links_names() == self.spec_links_names()
        &&& later.spec_is_guarded() == self.spec_is_guarded()
    }

    /// Whether `later` is this session with nothing changed but the
    /// trace.
    pub open spec fn same_state(&self, later: &Self) -> bool {
        &&& self.same_settings(later)
        &&& later.spec_is_open() == self.spec_is_open()
    }

    /// A session over `wraps`. Asks the device for its version once, to
    /// choose the reply deadline.
    pub fn new(wraps: VexProtocolWrapper<T>) -> (device: VexV5Device<T>)
        ensures
            wraps.trace().exchange(
                device.trace(),
                simple_packet(VexDeviceCommand::GetSystemVersion.spec_code(), Seq::empty()),
                DEFAULT_TIMEOUT_MS,
            ),
            device.spec_timeout() == session_timeout(version_outcome(device.trace().last_reply())),
            !device.spec_is_open(),
            !device.spec_links_names(),
            !device.spec_is_guarded(),
    {
        let mut device = VexV5Device {
            wraps,
            timeout: None,
            open: false,
            link_names: false,
            guarded: false,
        };
        let wireless = match device.is_wireless() {
            Ok(w) => w,
            Err(_) => false,
        };
        device.timeout = if wireless {
            Some(WIRELESS_TIMEOUT_MS)
        } else {
            None
        };
        device
    }

    /// The reply deadline of this session in milliseconds, if it has one.
    pub fn timeout(&self) -> (timeout: Option<u64>)
        ensures
            timeout == self.spec_timeout(),
    {
        self.timeout
    }

    /// Sets the reply deadline of this session.
    pub fn set_timeout(&mut self, timeout: Option<u64>)
        ensures
            final(self).spec_timeout() == timeout,
            final(self).trace() == old(self).trace(),
            final(self).spec_is_open() == old(self).spec_is_open(),
            final(self).spec_links_names() == old(self).spec_links_names(),
            final(self).spec_is_guarded() == old(self).spec_is_guarded(),
    {
        self.timeout = timeout;
    }

    /// Whether a file is open.
    pub fn is_open(&self) -> (open: bool)
        ensures
            open == self.spec_is_open(),
    {
        self.open
    }

    /// Chooses whether an upload in this session is followed by
    /// `SetLinkedFilename` once its file is open. In a new session it
    /// is not.
    pub fn set_link_names(&mut self, link_names: bool)
        ensures
            final(self).spec_links_names() == link_names,
            final(self).trace() == old(self).trace(),
            final(self).spec_is_open() == old(self).spec_is_open(),
            final(self).spec_timeout() == old(self).spec_timeout(),
            final(self).spec_is_guarded() == old(self).spec_is_guarded(),
    {
        self.link_names = link_names;
    }

    /// Whether a guarded block is under way.
    pub fn is_guarded(&self) -> (guarded: bool)
        ensures
            guarded == self.spec_is_guarded(),
    {
        self.guarded
    }

    /// Marks the start or the end of a guarded block.
    pub(crate) fn set_guarded(&mut self, guarded: bool)
        ensures
            final(self).spec_is_guarded() == guarded,
            final(self).trace() == old(self).trace(),
            final(self).spec_is_open() == old(self).spec_is_open(),
            final(self).spec_timeout() == old(self).spec_timeout(),
            final(self).spec_links_names() == old(self).spec_links_names(),
    {
        self.guarded = guarded;
    }

    /// Gives the transport back.
    pub fn into_inner(self) -> (wraps: VexProtocolWrapper<T>)
        ensures
            wraps.trace() == self.trace(),
    {
        self.wraps
    }

    /// One extended request and its reply.
    fn request(
        &mut self,
        command: VexDeviceCommand,
        payload: Vec<u8>,
        timeout: Option<u64>,
        flags: ResponseCheckFlags,
    ) -> (r: Result<Vec<u8>, V5Error>)
        ensures
            requested(
                old(self).trace(),
                final(self).trace(),
                command.spec_code(),
                payload@,
                timeout,
            ),
            payload_view(r) == request_outcome(final(self).trace(), payload@.len(), flags),
            old(self).same_state(final(self)),
    {
        match self.wraps.send_extended(command, payload) {
            Err(e) => Err(e),
            Ok(_) => match self.wraps.receive_extended(timeout, flags) {
                Err(e) => Err(e),
                Ok((_, reply, _)) => Ok(reply),
            },
        }
    }

    /// Asks the device for its version.
    pub fn get_device_version(&mut self) -> (r: Result<V5DeviceVersion, V5Error>)
        ensures
            old(self).trace().exchange(
                final(self).trace(),
                simple_packet(VexDeviceCommand::GetSystemVersion.spec_code(), Seq::empty()),
                DEFAULT_TIMEOUT_MS,
            ),
            r == version_outcome(final(self).trace().last_reply()),
            old(self).same_state(final(self)),
    {
        match self.wraps.send_simple(VexDeviceCommand::GetSystemVersion, Vec::new()) {
            Err(e) => Err(e),
            Ok(_) => match self.wraps.receive_simple(None) {
                Err(e) => Err(e),
                Ok((command, payload, _)) => version_from_reply(command, payload.as_slice()),
            },
        }
    }

    /// Asks the device whether it is a controller that is connected to
    /// a brain, by radio or by cable.
    pub fn is_wireless(&mut self) -> (r: Result<bool, V5Error>)
        ensures
            old(self).trace().exchange(
                final(self).trace(),
                simple_packet(VexDeviceCommand::GetSystemVersion.spec_code(), Seq::empty()),
                DEFAULT_TIMEOUT_MS,
            ),
            r == match version_outcome(final(self).trace().last_reply()) {
                Ok(version) => Ok::<bool, V5Error>(version.product_type.spec_is_wireless()),
                Err(e) => Err(e),
            },
            old(self).same_state(final(self)),
    {
        match self.get_device_version() {
            Ok(version) => Ok(version.product_type.is_wireless()),
            Err(e) => Err(e),
        }
    }

    /// Asks the device whether it is a controller.
    pub fn is_controller(&mut self) -> (r: Result<bool, V5Error>)
        ensures
            old(self).trace().exchange(
                final(self).trace(),
                simple_packet(VexDeviceCommand::GetSystemVersion.spec_code(), Seq::empty()),
                DEFAULT_TIMEOUT_MS,
            ),
            r == match version_outcome(final(self).trace().last_reply()) {
                Ok(version) => Ok::<bool, V5Error>(version.product_type.spec_is_controller()),
                Err(e) => Err(e),
            },
            old(self).same_state(final(self)),
    {
        match self.get_device_version() {
            Ok(version) => Ok(version.product_type.is_controller()),
            Err(e) => Err(e),
        }
    }

    /// Switches the radio channel of a controller; without a channel,
    /// back to the pit channel.
    pub fn switch_channel(&mut self, channel: Option<V5ControllerChannel>) -> (r: Result<
        (),
        V5Error,
    >)
        ensures
            requested(
                old(self).trace(),
                final(self).trace(),
                VexDeviceCommand::SwitchChannel.spec_code(),
                seq![channel.unwrap_or(V5ControllerChannel::PIT).spec_code()],
                old(self).spec_timeout(),
            ),
            r == done_outcome(final(self).trace(), 1),
            old(self).same_state(final(self)),
    {
        let channel = match channel {
            Some(c) => c,
            None => V5ControllerChannel::PIT,
        };
        let mut payload: Vec<u8> = Vec::new();
        payload.push(channel.code());
        proof {
            assert(payload@ =~= seq![channel.spec_code()]);
        }
        let timeout = self.timeout;
        match self.request(
            VexDeviceCommand::SwitchChannel,
            payload,
            timeout,
            ResponseCheckFlags { ack: true, crc: true },
        ) {
            Ok(_) => Ok(()),
            Err(e) => Err(e),
        }
    }
}

impl<T: SerialLink> VexV5Device<T> {
    /// Asks the device for the metadata of the file `file_name`, in the
    /// namespace `vid` (the user's, where none is given) and with
    /// `options` (none, where none are given). The name is cut to 23
    /// bytes.
    pub fn get_file_metadata(
        &mut self,
        file_name: String,
        vid: Option<VexVID>,
        options: Option<u8>,
    ) -> (r: Result<VexFileMetadata, V5Error>)
        ensures
            old(self).same_state(final(self)),
            !is_ascii_bytes(name_bytes(&file_name)) ==> r == Err::<VexFileMetadata, V5Error>(
                V5Error::InvalidName,
            ) && final(self).trace() == old(self).trace(),
            is_ascii_bytes(name_bytes(&file_name)) ==> queried(
                old(self).trace(),
                final(self).trace(),
                r,
                vid.unwrap_or(VexVID::USER),
                options.unwrap_or(0),
                name_field(name_bytes(&file_name)),
            ),
    {
        let vid = match vid {
            Some(v) => v,
            None => VexVID::USER,
        };
        let options = match options {
            Some(o) => o,
            None => 0,
        };
        let name = match truncate_name(file_name.as_str()) {
            Ok(n) => n,
            Err(e) => {
                return Err(e);
            },
        };
        self.get_file_metadata_named(&name, vid, options)
    }

    /// Asks the device for the metadata of the file whose name field is
    /// `name`, in the namespace `vid` and with `options`.
    pub fn get_file_metadata_named(
        &mut self,
        name: &[u8; 24],
        vid: VexVID,
        options: u8,
    ) -> (r: Result<VexFileMetadata, V5Error>)
        ensures
            old(self).same_state(final(self)),
            queried(old(self).trace(), final(self).trace(), r, vid, options, name@),
    {
        let payload = VexFileMetadata::encode_query(vid, options, name);
        match self.request(
            VexDeviceCommand::GetMetadataByFilename,
            payload,
            None,
            ResponseCheckFlags { ack: true, crc: true },
        ) {
            Err(e) => match e {
                V5Error::Nack(VexACKType::NACKDirectoryNoExist) => Err(V5Error::FileNotFound),
                _ => Err(e),
            },
            Ok(reply) => VexFileMetadata::from_payload(reply.as_slice()),
        }
    }

    /// Closes the open transfer and tells the brain what to do next.
    /// The session holds no open file afterwards, whatever the device
    /// answered.
    pub fn exit(&mut self, on_exit: VexFiletransferFinished) -> (r: Result<Vec<u8>, V5Error>)
        ensures
            old(self).same_settings(final(self)),
            !final(self).spec_is_open(),
            !old(self).spec_is_open() ==> r == Err::<Vec<u8>, V5Error>(V5Error::ProtocolState)
                && final(self).trace() == old(self).trace(),
            old(self).spec_is_open() ==> requested(
                old(self).trace(),
                final(self).trace(),
                VexDeviceCommand::ExitFile.spec_code(),
                seq![on_exit.spec_code()],
                old(self).spec_timeout(),
            ) && payload_view(r) == request_outcome(final(self).trace(), 1, check_all()),
    {
        if !self.open {
            return Err(V5Error::ProtocolState);
        }
        let mut payload: Vec<u8> = Vec::new();
        payload.push(on_exit.code());
        proof {
            assert(payload@ =~= seq![on_exit.spec_code()]);
        }
        let timeout = self.timeout;
        let r = self.request(
            VexDeviceCommand::ExitFile,
            payload,
            timeout,
            ResponseCheckFlags { ack: true, crc: true },
        );
        self.open = false;
        r
    }

    /// Reads `length` bytes of the open file at the address `offset`.
    /// The length has to be a multiple of four.
    pub fn read_raw(&mut self, offset: u32, length: u16) -> (r: Result<Vec<u8>, V5Error>)
        ensures
            old(self).same_state(final(self)),
            !old(self).spec_is_open() ==> r == Err::<Vec<u8>, V5Error>(V5Error::ProtocolState)
                && final(self).trace() == old(self).trace(),
            old(self).spec_is_open() && length % 4 != 0 ==> r == Err::<Vec<u8>, V5Error>(
                V5Error::LengthModFour,
            ) && final(self).trace() == old(self).trace(),
            old(self).spec_is_open() && length % 4 == 0 ==> requested(
                old(self).trace(),
                final(self).trace(),
                VexDeviceCommand::ReadFile.spec_code(),
                read_payload(offset, length),
                old(self).spec_timeout(),
            ) && payload_view(r) == read_outcome(final(self).trace(), length as nat),
    {
        if !self.open {
            return Err(V5Error::ProtocolState);
        }
        if length % 4 != 0 {
            return Err(V5Error::LengthModFour);
        }
        let payload = encode_read(offset, length);
        let timeout = self.timeout;
        match self.request(
            VexDeviceCommand::ReadFile,
            payload,
            timeout,
            ResponseCheckFlags { ack: false, crc: true },
        ) {
            Err(e) => Err(e),
            Ok(reply) => {
                let n: usize = length as usize;
                if reply.len() < 4 + n {
                    Err(V5Error::InvalidPayloadLength)
                } else {
                    Ok(copy_range(reply.as_slice(), 4, 4 + n))
                }
            },
        }
    }

    /// Writes `data` to the open file at the address `offset`. The
    /// length of `data` has to be a multiple of four.
    pub fn write_raw(&mut self, offset: u32, data: Vec<u8>) -> (r: Result<(), V5Error>)
        ensures
            old(self).same_state(final(self)),
            !old(self).spec_is_open() ==> r == Err::<(), V5Error>(V5Error::ProtocolState)
                && final(self).trace() == old(self).trace(),
            old(self).spec_is_open() && data@.len() % 4 != 0 ==> r == Err::<(), V5Error>(
                V5Error::LengthModFour,
            ) && final(self).trace() == old(self).trace(),
            old(self).spec_is_open() && data@.len() % 4 == 0 ==> requested(
                old(self).trace(),
                final(self).trace(),
                VexDeviceCommand::WriteFile.spec_code(),
                write_payload(offset, data@),
                old(self).spec_timeout(),
            ) && r == done_outcome(final(self).trace(), 4 + data@.len()),
    {
        if !self.open {
            return Err(V5Error::ProtocolState);
        }
        if data.len() % 4 != 0 {
            return Err(V5Error::LengthModFour);
        }
        let payload = encode_write(offset, data.as_slice());
        let timeout = self.timeout;
        match self.request(
            VexDeviceCommand::WriteFile,
            payload,
            timeout,
            ResponseCheckFlags { ack: true, crc: true },
        ) {
            Err(e) => Err(e),
            Ok(_) => Ok(()),
        }
    }
}

/// Whether `later` is `earlier` after the request to open a file with
/// `metadata` and the name field `name`, with the outcome `r`: the
/// device's refusal, or a handle with what the device answered.
pub open spec fn opened(
    earlier: Trace,
    later: Trace,
    r: Result<V5FileHandle, V5Error>,
    metadata: VexInitialFileMetadata,
    name: Seq<u8>,
    timeout: Option<u64>,
) -> bool {
    &&& requested(
        earlier,
        later,
        VexDeviceCommand::OpenFile.spec_code(),
        metadata.open_payload(name),
        timeout,
    )
    &&& match open_outcome(later) {
        Err(e) => r is Err && r->Err_0 == e,
        Ok(transfer) => r is Ok && r->Ok_0.opened_as(transfer, metadata, name, timeout),
    }
}

/// The handle of a file that is open on a device: what the host said
/// of the file, what the device answered, and whether the transfer has
/// been closed through this handle.
pub struct V5FileHandle {
    transfer_metadata: VexFiletransferMetadata,
    metadata: VexInitialFileMetadata,
    file_name: [u8; 24],
    timeout: Option<u64>,
    closed: bool,
}

impl V5FileHandle {
    /// What the device answered when the file was opened.
    pub closed spec fn spec_transfer_metadata(&self) -> VexFiletransferMetadata {
        self.transfer_metadata
    }

    /// What the host said of the file when it opened it.
    pub closed spec fn spec_metadata(&self) -> VexInitialFileMetadata {
        self.metadata
    }

    /// The name field of the file.
    pub closed spec fn spec_file_name(&self) -> Seq<u8> {
        self.file_name@
    }

    /// The reply deadline of the session that opened the file.
    pub closed spec fn spec_timeout(&self) -> Option<u64> {
        self.timeout
    }

    /// Whether the transfer has been closed through this handle.
    pub closed spec fn spec_is_closed(&self) -> bool {
        self.closed
    }

    /// Whether this is the handle of a file just opened: with what the
    /// device answered, what the host said, the name field and the
    /// deadline, and not closed.
    pub open spec fn opened_as(
        &self,
        transfer: VexFiletransferMetadata,
        metadata: VexInitialFileMetadata,
        name: Seq<u8>,
        timeout: Option<u64>,
    ) -> bool {
        &&& self.spec_transfer_metadata() == transfer
        &&& self.spec_metadata() == metadata
        &&& self.spec_file_name() == name
        &&& self.spec_timeout() == timeout
        &&& !self.spec_is_closed()
    }

    /// What the device answered when the file was opened.
    pub fn transfer_metadata(&self) -> (metadata: VexFiletransferMetadata)
        ensures
            metadata == self.spec_transfer_metadata(),
    {
        self.transfer_metadata
    }

    /// What the host said of the file when it opened it.
    pub fn metadata(&self) -> (metadata: VexInitialFileMetadata)
        ensures
            metadata == self.spec_metadata(),
    {
        self.metadata
    }

    /// The name field of the file.
    pub fn file_name(&self) -> (name: [u8; 24])
        ensures
            name@ == self.spec_file_name(),
    {
        self.file_name
    }

    /// The reply deadline of the session that opened the file.
    pub fn timeout(&self) -> (timeout: Option<u64>)
        ensures
            timeout == self.spec_timeout(),
    {
        self.timeout
    }

    /// Whether the transfer has been closed through this handle.
    pub fn is_closed(&self) -> (closed: bool)
        ensures
            closed == self.spec_is_closed(),
    {
        self.closed
    }

    /// Closes the transfer and tells the brain what to do next. On a
    /// handle that has been closed already nothing is sent.
    pub fn close<T: SerialLink>(
        &mut self,
        device: &mut VexV5Device<T>,
        on_exit: VexFiletransferFinished,
    ) -> (r: Result<Vec<u8>, V5Error>)
        ensures
            final(self).spec_is_closed(),
            final(self).spec_transfer_metadata() == old(self).spec_transfer_metadata(),
            final(self).spec_metadata() == old(self).spec_metadata(),
            final(self).spec_file_name() == old(self).spec_file_name(),
            final(self).spec_timeout() == old(self).spec_timeout(),
            old(device).same_settings(final(device)),
            old(self).spec_is_closed() ==> payload_view(r) == Ok::<Seq<u8>, V5Error>(Seq::empty())
                && final(device).trace() == old(device).trace() && final(device).spec_is_open()
                == old(device).spec_is_open(),
            !old(self).spec_is_closed() ==> !final(device).spec_is_open(),
            !old(self).spec_is_closed() && !old(device).spec_is_open() ==> r == Err::<
                Vec<u8>,
                V5Error,
            >(V5Error::ProtocolState) && final(device).trace() == old(device).trace(),
            !old(self).spec_is_closed() && old(device).spec_is_open() ==> requested(
                old(device).trace(),
                final(device).trace(),
                VexDeviceCommand::ExitFile.spec_code(),
                seq![on_exit.spec_code()],
                old(device).spec_timeout(),
            ) && payload_view(r) == request_outcome(final(device).trace(), 1, check_all()),
    {
        if self.closed {
            return Ok(Vec::new());
        }
        self.closed = true;
        device.exit(on_exit)
    }

    /// Gives the handle up. Where the transfer has not been closed
    /// through it, closes it and tells the brain to do nothing.
    pub fn release<T: SerialLink>(self, device: &mut VexV5Device<T>)
        ensures
            old(device).same_settings(final(device)),
            self.spec_is_closed() ==> final(device).trace() == old(device).trace()
                && final(device).spec_is_open() == old(device).spec_is_open(),
            !self.spec_is_closed() ==> !final(device).spec_is_open(),
            !self.spec_is_closed() && !old(device).spec_is_open()
                ==> final(device).trace() == old(device).trace(),
            !self.spec_is_closed() && old(device).spec_is_open() ==> requested(
                old(device).trace(),
                final(device).trace(),
                VexDeviceCommand::ExitFile.spec_code(),
                seq![VexFiletransferFinished::DoNothing.spec_code()],
                old(device).spec_timeout(),
            ),
    {
        let mut handle = self;
        let _ = handle.close(device, VexFiletransferFinished::DoNothing);
    }
}

impl<T: SerialLink> VexV5Device<T> {
    /// Opens the file `file_name` for a transfer, with the default
    /// metadata where none are given. A session holds one open file at
    /// a time.
    pub fn open(
        &mut self,
        file_name: String,
        file_metadata: Option<VexInitialFileMetadata>,
    ) -> (r: Result<V5FileHandle, V5Error>)
        ensures
            old(self).same_settings(final(self)),
            final(self).spec_is_open() == (old(self).spec_is_open() || r is Ok),
            old(self).spec_is_open() ==> r is Err
                && r->Err_0 == V5Error::ProtocolState
                && final(self).trace() == old(self).trace(),
            !old(self).spec_is_open() && !is_valid_name(name_bytes(&file_name)) ==> r is Err
                && r->Err_0 == V5Error::InvalidName && final(self).trace() == old(self).trace(),
            !old(self).spec_is_open() && is_valid_name(name_bytes(&file_name)) ==> opened(
                old(self).trace(),
                final(self).trace(),
                r,
                file_metadata.unwrap_or(VexInitialFileMetadata::spec_at(0)),
                name_field(name_bytes(&file_name)),
                old(self).spec_timeout(),
            ),
    {
        if self.open {
            return Err(V5Error::ProtocolState);
        }
        let name = match encode_name(file_name.as_str()) {
            Ok(n) => n,
            Err(e) => {
                return Err(e);
            },
        };
        let metadata = match file_metadata {
            Some(m) => m,
            None => VexInitialFileMetadata::at(0),
        };
        self.open_named(&name, metadata)
    }

    /// Opens the file whose name field is `name` for a transfer with
    /// `metadata`. A session holds one open file at a time.
    pub fn open_named(&mut self, name: &[u8; 24], metadata: VexInitialFileMetadata) -> (r: Result<
        V5FileHandle,
        V5Error,
    >)
        ensures
            old(self).same_settings(final(self)),
            final(self).spec_is_open() == (old(self).spec_is_open() || r is Ok),
            old(self).spec_is_open() ==> r is Err
                && r->Err_0 == V5Error::ProtocolState
                && final(self).trace() == old(self).trace(),
            !old(self).spec_is_open() ==> opened(
                old(self).trace(),
                final(self).trace(),
                r,
                metadata,
                name@,
                old(self).spec_timeout(),
            ),
    {
        if self.open {
            return Err(V5Error::ProtocolState);
        }
        let payload = metadata.encode_open(name);
        let timeout = self.timeout;
        let reply = match self.request(
            VexDeviceCommand::OpenFile,
            payload,
            timeout,
            ResponseCheckFlags { ack: true, crc: true },
        ) {
            Ok(reply) => reply,
            Err(e) => {
                return Err(e);
            },
        };
        let transfer = match VexFiletransferMetadata::from_payload(reply.as_slice()) {
            Ok(t) => t,
            Err(e) => {
                return Err(e);
            },
        };
        self.open = true;
        Ok(
            V5FileHandle {
                transfer_metadata: transfer,
                metadata,
                file_name: *name,
                timeout,
                closed: false,
            },
        )
    }

    /// Tells the device the name that the open upload of `handle` is
    /// linked to: the request `SetLinkedFilename`.
    pub fn link_filename(&mut self, handle: &V5FileHandle) -> (r: Result<(), V5Error>)
        ensures
            old(self).same_state(final(self)),
            requested(
                old(self).trace(),
                final(self).trace(),
                VexDeviceCommand::SetLinkedFilename.spec_code(),
                handle.spec_metadata().link_payload(handle.spec_file_name()),
                old(self).spec_timeout(),
            ),
            r == done_outcome(final(self).trace(), 26),
    {
        let payload = handle.metadata.encode_link(&handle.file_name);
        let timeout = self.timeout;
        match self.request(
            VexDeviceCommand::SetLinkedFilename,
            payload,
            timeout,
            ResponseCheckFlags { ack: true, crc: true },
        ) {
            Ok(_) => Ok(()),
            Err(e) => Err(e),
        }
    }

    /// Whether an upload in this session is followed by
    /// `SetLinkedFilename` once its file is open.
    pub fn links_names(&self) -> (links: bool)
        ensures
            links == self.spec_links_names(),
    {
        self.link_names
    }
}

/// A request that gave a payload is one request that the link took.
pub proof fn lemma_request_took(
    earlier: Trace,
    later: Trace,
    code: u8,
    payload: Seq<u8>,
    timeout: Option<u64>,
    flags: ResponseCheckFlags,
)
    requires
        requested(earlier, later, code, payload, timeout),
        request_outcome(later, payload.len(), flags) is Ok,
    ensures
        earlier.took(later, seq![extended_frame(code, payload)]),
        later.before_last() == earlier,
{
    lemma_took_one(earlier, later, extended_frame(code, payload), effective_timeout(timeout));
}

/// A request adds one write to the trace, and taking the last request
/// off again gives the trace from before.
pub proof fn lemma_requested_step(
    earlier: Trace,
    later: Trace,
    code: u8,
    payload: Seq<u8>,
    timeout: Option<u64>,
)
    requires
        requested(earlier, later, code, payload, timeout),
        payload.len() <= 0xFFFF,
    ensures
        later.before_last() == earlier,
        later.writes.len() == earlier.writes.len() + 1,
        later.writes.last().bytes == extended_frame(code, payload),
{
    let frame = extended_frame(code, payload);
    if later == earlier.write(frame, false) {
        assert(later.writes.drop_last() =~= earlier.writes);
    } else {
        assert(later.writes.drop_last() =~= earlier.writes);
        assert(later.reads.drop_last() =~= earlier.reads);
    }
}

impl V5FileHandle {
    /// Reads `n_bytes` bytes of the file at the address `offset`. The
    /// device is asked for the length rounded up to a multiple of four,
    /// and what it sends beyond `n_bytes` is dropped.
    pub fn read_len<T: SerialLink>(
        &self,
        device: &mut VexV5Device<T>,
        offset: u32,
        n_bytes: u16,
    ) -> (r: Result<Vec<u8>, V5Error>)
        ensures
            old(device).same_state(final(device)),
            self.spec_is_closed() || !old(device).spec_is_open() ==> r == Err::<Vec<u8>, V5Error>(
                V5Error::ProtocolState,
            ) && final(device).trace() == old(device).trace(),
            !self.spec_is_closed() && old(device).spec_is_open() && pad4(n_bytes as nat) > 0xFFFF
                ==> r == Err::<Vec<u8>, V5Error>(V5Error::InvalidPayloadLength)
                   && final(device).trace() == old(device).trace(),
            !self.spec_is_closed() && old(device).spec_is_open() && pad4(n_bytes as nat) <= 0xFFFF
                ==> requested(
                old(device).trace(),
                final(device).trace(),
                VexDeviceCommand::ReadFile.spec_code(),
                read_payload(offset, pad4(n_bytes as nat) as u16),
                old(device).spec_timeout(),
            ) && payload_view(r) == match read_outcome(
                final(device).trace(),
                pad4(n_bytes as nat),
            ) {
                Ok(bytes) => Ok::<Seq<u8>, V5Error>(bytes.subrange(0, n_bytes as int)),
                Err(e) => Err(e),
            },
    {
        if self.closed || !device.is_open() {
            return Err(V5Error::ProtocolState);
        }
        let wanted: u32 = n_bytes as u32;
        let padded: u32 = (wanted + 3) / 4 * 4;
        if padded > 0xFFFF {
            return Err(V5Error::InvalidPayloadLength);
        }
        match device.read_raw(offset, padded as u16) {
            Err(e) => Err(e),
            Ok(bytes) => Ok(copy_range(bytes.as_slice(), 0, n_bytes as usize)),
        }
    }

    /// Writes `data` to the file at the address `offset`, with zeros
    /// behind it up to a multiple of four bytes.
    pub fn write_some<T: SerialLink>(
        &self,
        device: &mut VexV5Device<T>,
        offset: u32,
        data: &[u8],
    ) -> (r: Result<(), V5Error>)
        ensures
            old(device).same_state(final(device)),
            self.spec_is_closed() || !old(device).spec_is_open() ==> r == Err::<(), V5Error>(
                V5Error::ProtocolState,
            ) && final(device).trace() == old(device).trace(),
            !self.spec_is_closed() && old(device).spec_is_open() ==> requested(
                old(device).trace(),
                final(device).trace(),
                VexDeviceCommand::WriteFile.spec_code(),
                write_payload(offset, zero_padded(data@)),
                old(device).spec_timeout(),
            ) && r == done_outcome(final(device).trace(), 4 + zero_padded(data@).len()),
    {
        if self.closed || !device.is_open() {
            return Err(V5Error::ProtocolState);
        }
        let padded = padded_chunk(data, 0, data.len());
        proof {
            assert(data@.subrange(0, data@.len() as int) =~= data@);
        }
        device.write_raw(offset, padded)
    }
}

} // verus!
