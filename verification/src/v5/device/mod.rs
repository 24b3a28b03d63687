//! What a V5 device holds and reports: files, versions, channels.

pub mod device;
pub mod transfer;

pub use device::VexV5Device;

use crate::bytes::{
    from_le16, from_le32, le16, le32, push_all, push_le16, push_le32, read_le16, read_le32,
};
use crate::v5::protocol::vex::copy_range;
use crate::error::V5Error;
use vstd::prelude::*;
use vstd::string::StringSliceAdditionalSpecFns;

verus! {

/// Where on the device a file lives.
#[derive(Clone, Copy, Debug, PartialEq, Eq, Structural)]
pub enum VexFileTarget {
    DDR,
    FLASH,
    SCREEN,
}

impl VexFileTarget {
    /// The byte that stands for this target on the wire.
    pub open spec fn spec_code(self) -> u8 {
        match self {
            VexFileTarget::DDR => 0,
            VexFileTarget::FLASH => 1,
            VexFileTarget::SCREEN => 2,
        }
    }

    /// The byte that stands for this target on the wire.
    pub fn code(self) -> (value: u8)
        ensures
            value == self.spec_code(),
    {
        match self {
            VexFileTarget::DDR => 0,
            VexFileTarget::FLASH => 1,
            VexFileTarget::SCREEN => 2,
        }
    }
}

/// The direction of a file transfer, its target, and whether a file
/// that exists may be overwritten.
#[derive(Clone, Copy, Debug, PartialEq, Eq, Structural)]
pub enum VexFileMode {
    /// Host to device.
    Upload(VexFileTarget, bool),
    /// Device to host.
    Download(VexFileTarget, bool),
}

impl VexFileMode {
    /// The function byte: 1 for upload, 2 for download.
    pub open spec fn spec_function(self) -> u8 {
        match self {
            VexFileMode::Upload(_, _) => 1,
            VexFileMode::Download(_, _) => 2,
        }
    }

    /// The target of the transfer.
    pub open spec fn spec_target(self) -> VexFileTarget {
        match self {
            VexFileMode::Upload(target, _) => target,
            VexFileMode::Download(target, _) => target,
        }
    }

    /// The overwrite bit, as it is folded into the options byte.
    pub open spec fn spec_overwrite(self) -> u8 {
        match self {
            VexFileMode::Upload(_, overwrite) => if overwrite {
                1
            } else {
                0
            },
            VexFileMode::Download(_, overwrite) => if overwrite {
                1
            } else {
                0
            },
        }
    }

    /// The function byte, the target byte and the overwrite bit.
    pub fn triple(self) -> (t: (u8, u8, u8))
        ensures
            t.0 == self.spec_function(),
            t.1 == self.spec_target().spec_code(),
            t.2 == self.spec_overwrite(),
    {
        match self {
            VexFileMode::Upload(target, overwrite) => (1, target.code(), if overwrite {
                1
            } else {
                0
            }),
            VexFileMode::Download(target, overwrite) => (2, target.code(), if overwrite {
                1
            } else {
                0
            }),
        }
    }
}

/// The vendor namespace of a file.
#[derive(Clone, Copy, Debug, PartialEq, Eq, Structural)]
pub enum VexVID {
    USER,
    SYSTEM,
    RMS,
    PROS,
    MW,
}

impl VexVID {
    /// The byte that stands for this namespace on the wire.
    pub open spec fn spec_code(self) -> u8 {
        match self {
            VexVID::USER => 1,
            VexVID::SYSTEM => 15,
            VexVID::RMS => 16,
            VexVID::PROS => 24,
            VexVID::MW => 32,
        }
    }

    /// The namespace that `value` stands for, if it stands for one.
    pub open spec fn spec_from_u8(value: u8) -> Option<VexVID> {
        if value == 1 {
            Some(VexVID::USER)
        } else if value == 15 {
            Some(VexVID::SYSTEM)
        } else if value == 16 {
            Some(VexVID::RMS)
        } else if value == 24 {
            Some(VexVID::PROS)
        } else if value == 32 {
            Some(VexVID::MW)
        } else {
            None
        }
    }

    /// The byte that stands for this namespace on the wire.
    pub fn code(self) -> (value: u8)
        ensures
            value == self.spec_code(),
    {
        match self {
            VexVID::USER => 1,
            VexVID::SYSTEM => 15,
            VexVID::RMS => 16,
            VexVID::PROS => 24,
            VexVID::MW => 32,
        }
    }

    /// Reads a namespace byte.
    pub fn from_u8(value: u8) -> (vid: Option<VexVID>)
        ensures
            vid == VexVID::spec_from_u8(value),
    {
        match value {
            1 => Some(VexVID::USER),
            15 => Some(VexVID::SYSTEM),
            16 => Some(VexVID::RMS),
            24 => Some(VexVID::PROS),
            32 => Some(VexVID::MW),
            _ => None,
        }
    }
}

/// The address at which user files start in flash.
pub const USER_FLASH_BASE: u32 = 0x0380_0000;

/// Seconds from 1970-01-01 to 2000-01-01, both at 00:00:00 UTC.
pub const SECONDS_TO_2000: i64 = 946_684_800;

/// The time stamp of a file for a time given in seconds since
/// 1970-01-01 00:00:00 UTC: the seconds since 2000-01-01 00:00:00 UTC,
/// where they fit 32 bits.
pub open spec fn spec_v5_timestamp(unix_seconds: i64) -> Option<u32> {
    if SECONDS_TO_2000 <= unix_seconds && unix_seconds - SECONDS_TO_2000 <= u32::MAX {
        Some((unix_seconds - SECONDS_TO_2000) as u32)
    } else {
        None
    }
}

/// The time stamp of a file for a time given in seconds since
/// 1970-01-01 00:00:00 UTC.
pub fn v5_timestamp(unix_seconds: i64) -> (stamp: Option<u32>)
    ensures
        stamp == spec_v5_timestamp(unix_seconds),
{
    if unix_seconds >= SECONDS_TO_2000 && unix_seconds - SECONDS_TO_2000 <= 0xFFFF_FFFF {
        Some((unix_seconds - SECONDS_TO_2000) as u32)
    } else {
        None
    }
}

/// Whether no byte of `s` has its high bit set.
pub open spec fn is_ascii_bytes(s: Seq<u8>) -> bool {
    forall|i: int| 0 <= i < s.len() ==> s[i] < 0x80
}

/// The 24-byte name field of a file whose name is `name`: the first 23
/// bytes of the name, then zeros.
pub open spec fn name_field(name: Seq<u8>) -> Seq<u8> {
    Seq::new(
        24,
        |i: int|
            if i < name.len() && i < 23 {
                name[i]
            } else {
                0u8
            },
    )
}

/// Whether `name` is a file name that the device takes as it is: ASCII,
/// and of 23 bytes at most.
pub open spec fn is_valid_name(name: Seq<u8>) -> bool {
    is_ascii_bytes(name) && name.len() <= 23
}

fn all_ascii(bytes: &[u8]) -> (ok: bool)
    ensures
        ok == is_ascii_bytes(bytes@),
{
    let mut i: usize = 0;
    while i < bytes.len()
        invariant
            i <= bytes@.len(),
            forall|j: int| 0 <= j < i ==> bytes@[j] < 0x80,
        decreases bytes.len() - i,
    {
        if bytes[i] >= 0x80 {
            return false;
        }
        i += 1;
    }
    true
}

/// The name field of a file whose name is `bytes`, cut to 23 bytes.
pub fn fill_name(bytes: &[u8]) -> (field: [u8; 24])
    ensures
        field@ == name_field(bytes@),
{
    let mut field: [u8; 24] = [0u8; 24];
    let mut i: usize = 0;
    while i < 23 && i < bytes.len()
        invariant
            i <= 23,
            i <= bytes@.len(),
            field@.len() == 24,
            forall|j: int| 0 <= j < i ==> field@[j] == bytes@[j],
            forall|j: int| i <= j < 24 ==> field@[j] == 0,
        decreases 23 - i,
    {
        field[i] = bytes[i];
        i += 1;
    }
    proof {
        assert(field@ =~= name_field(bytes@));
    }
    field
}

/// The name field of a file name, cut to 23 bytes. A name with a
/// non-ASCII byte is refused.
pub fn truncate_name(name: &str) -> (r: Result<[u8; 24], V5Error>)
    ensures
        is_ascii_bytes(name.spec_bytes()) ==> r is Ok && r->Ok_0@ == name_field(name.spec_bytes()),
        !is_ascii_bytes(name.spec_bytes()) ==> r == Err::<[u8; 24], V5Error>(V5Error::InvalidName),
{
    let bytes = name.as_bytes();
    if !all_ascii(bytes) {
        return Err(V5Error::InvalidName);
    }
    Ok(fill_name(bytes))
}

/// The name field of a file name. A name with a non-ASCII byte or of
/// more than 23 bytes is refused.
pub fn encode_name(name: &str) -> (r: Result<[u8; 24], V5Error>)
    ensures
        is_valid_name(name.spec_bytes()) ==> r is Ok && r->Ok_0@ == name_field(name.spec_bytes()),
        !is_valid_name(name.spec_bytes()) ==> r == Err::<[u8; 24], V5Error>(V5Error::InvalidName),
{
    let bytes = name.as_bytes();
    if bytes.len() > 23 || !all_ascii(bytes) {
        return Err(V5Error::InvalidName);
    }
    Ok(fill_name(bytes))
}

/// What the host tells the device about a file when it opens a transfer.
#[derive(Clone, Copy, Debug, PartialEq)]
pub struct VexInitialFileMetadata {
    pub function: VexFileMode,
    pub vid: VexVID,
    pub options: u8,
    pub length: u32,
    pub addr: u32,
    pub crc: u32,
    pub file_type: [u8; 4],
    pub timestamp: u32,
    pub version: u32,
}

impl VexInitialFileMetadata {
    /// The metadata of an upload to user flash that may overwrite: no
    /// options, length and checksum zero, type `bin`, version zero.
    pub open spec fn spec_default(self) -> bool {
        &&& self.function == VexFileMode::Upload(VexFileTarget::FLASH, true)
        &&& self.vid == VexVID::USER
        &&& self.options == 0
        &&& self.length == 0
        &&& self.addr == USER_FLASH_BASE
        &&& self.crc == 0
        &&& self.file_type@ == seq![0x62u8, 0x69u8, 0x6eu8, 0u8]
        &&& self.version == 0
    }

    /// The payload of `OpenFile` for these metadata and a name field.
    pub open spec fn open_payload(self, name: Seq<u8>) -> Seq<u8> {
        seq![
            self.function.spec_function(),
            self.function.spec_target().spec_code(),
            self.vid.spec_code(),
            self.function.spec_overwrite() | self.options,
        ] + le32(self.length) + le32(self.addr) + le32(self.crc) + self.file_type@ + le32(
            self.timestamp,
        ) + le32(self.version) + name
    }

    /// The payload of `SetLinkedFilename` for these metadata and a name
    /// field.
    pub open spec fn link_payload(self, name: Seq<u8>) -> Seq<u8> {
        seq![self.vid.spec_code(), self.options | self.function.spec_overwrite()] + name
    }

    /// The default metadata with the time stamp `timestamp`.
    pub open spec fn spec_at(timestamp: u32) -> VexInitialFileMetadata {
        VexInitialFileMetadata {
            function: VexFileMode::Upload(VexFileTarget::FLASH, true),
            vid: VexVID::USER,
            options: 0,
            length: 0,
            addr: USER_FLASH_BASE,
            crc: 0,
            file_type: [0x62u8, 0x69u8, 0x6eu8, 0u8],
            timestamp,
            version: 0,
        }
    }

    /// The default metadata with the time stamp `timestamp`.
    pub fn at(timestamp: u32) -> (metadata: VexInitialFileMetadata)
        ensures
            metadata == VexInitialFileMetadata::spec_at(timestamp),
            metadata.spec_default(),
            metadata.timestamp == timestamp,
    {
        let file_type: [u8; 4] = [0x62u8, 0x69u8, 0x6eu8, 0u8];
        let metadata = VexInitialFileMetadata {
            function: VexFileMode::Upload(VexFileTarget::FLASH, true),
            vid: VexVID::USER,
            options: 0,
            length: 0,
            addr: USER_FLASH_BASE,
            crc: 0,
            file_type,
            timestamp,
            version: 0,
        };
        proof {
            assert(metadata.file_type@ =~= seq![0x62u8, 0x69u8, 0x6eu8, 0u8]);
        }
        metadata
    }

    /// Builds the payload of `OpenFile`.
    pub fn encode_open(&self, name: &[u8; 24]) -> (payload: Vec<u8>)
        ensures
            payload@ == self.open_payload(name@),
            payload@.len() == 52,
    {
        let triple = self.function.triple();
        let mut payload: Vec<u8> = Vec::new();
        payload.push(triple.0);
        payload.push(triple.1);
        payload.push(self.vid.code());
        payload.push(triple.2 | self.options);
        push_le32(&mut payload, self.length);
        push_le32(&mut payload, self.addr);
        push_le32(&mut payload, self.crc);
        push_all(&mut payload, self.file_type.as_slice());
        push_le32(&mut payload, self.timestamp);
        push_le32(&mut payload, self.version);
        push_all(&mut payload, name.as_slice());
        proof {
            assert(payload@ =~= self.open_payload(name@));
        }
        payload
    }

    /// Builds the payload of `SetLinkedFilename`.
    pub fn encode_link(&self, name: &[u8; 24]) -> (payload: Vec<u8>)
        ensures
            payload@ == self.link_payload(name@),
    {
        let triple = self.function.triple();
        let mut payload: Vec<u8> = Vec::new();
        payload.push(self.vid.code());
        payload.push(self.options | triple.2);
        push_all(&mut payload, name.as_slice());
        proof {
            assert(payload@ =~= self.link_payload(name@));
        }
        payload
    }
}

impl Default for VexInitialFileMetadata {
    /// The default metadata with the time stamp zero; a caller that
    /// knows the time sets it.
    fn default() -> (metadata: Self)
        ensures
            metadata == VexInitialFileMetadata::spec_at(0),
            metadata.spec_default(),
            metadata.timestamp == 0,
    {
        VexInitialFileMetadata::at(0)
    }
}

/// What the device knows about a file.
#[derive(Clone, Copy, Debug, PartialEq)]
pub struct VexFileMetadata {
    pub idx: u8,
    pub size: u32,
    pub addr: u32,
    pub crc: u32,
    pub file_type: [u8; 4],
    pub timestamp: u32,
    pub version: u32,
    pub filename: [u8; 24],
}

impl VexFileMetadata {
    /// Whether these metadata are what `payload` holds: index, size,
    /// address, checksum, type, time stamp, version and name, in that
    /// order and without gaps.
    pub open spec fn describes(self, payload: Seq<u8>) -> bool {
        &&& payload.len() >= 49
        &&& self.idx == payload[0]
        &&& self.size == from_le32(payload.subrange(1, 5))
        &&& self.addr == from_le32(payload.subrange(5, 9))
        &&& self.crc == from_le32(payload.subrange(9, 13))
        &&& self.file_type@ == payload.subrange(13, 17)
        &&& self.timestamp == from_le32(payload.subrange(17, 21))
        &&& self.version == from_le32(payload.subrange(21, 25))
        &&& self.filename@ == payload.subrange(25, 49)
    }

    /// The payload of `GetMetadataByFilename`.
    pub open spec fn query_payload(vid: VexVID, options: u8, name: Seq<u8>) -> Seq<u8> {
        seq![vid.spec_code(), options] + name
    }

    /// Builds the payload of `GetMetadataByFilename`.
    pub fn encode_query(vid: VexVID, options: u8, name: &[u8; 24]) -> (payload: Vec<u8>)
        ensures
            payload@ == VexFileMetadata::query_payload(vid, options, name@),
            payload@.len() == 26,
    {
        let mut payload: Vec<u8> = Vec::new();
        payload.push(vid.code());
        payload.push(options);
        push_all(&mut payload, name.as_slice());
        proof {
            assert(payload@ =~= VexFileMetadata::query_payload(vid, options, name@));
        }
        payload
    }

    /// Reads the metadata of a file from the payload of a reply. Bytes
    /// after the 49th are not looked at; fewer than 49 are refused.
    pub fn from_payload(payload: &[u8]) -> (r: Result<VexFileMetadata, V5Error>)
        ensures
            payload@.len() >= 49 ==> r is Ok && r->Ok_0.describes(payload@),
            payload@.len() < 49 ==> r == Err::<VexFileMetadata, V5Error>(
                V5Error::InvalidPayloadLength,
            ),
    {
        if payload.len() < 49 {
            return Err(V5Error::InvalidPayloadLength);
        }
        let mut file_type: [u8; 4] = [0u8; 4];
        let mut i: usize = 0;
        while i < 4
            invariant
                i <= 4,
                payload@.len() >= 49,
                file_type@.len() == 4,
                forall|j: int| 0 <= j < i ==> file_type@[j] == payload@[13 + j],
            decreases 4 - i,
        {
            file_type[i] = payload[13 + i];
            i += 1;
        }
        let mut filename: [u8; 24] = [0u8; 24];
        let mut k: usize = 0;
        while k < 24
            invariant
                k <= 24,
                payload@.len() >= 49,
                filename@.len() == 24,
                forall|j: int| 0 <= j < k ==> filename@[j] == payload@[25 + j],
            decreases 24 - k,
        {
            filename[k] = payload[25 + k];
            k += 1;
        }
        let metadata = VexFileMetadata {
            idx: payload[0],
            size: read_le32(payload, 1),
            addr: read_le32(payload, 5),
            crc: read_le32(payload, 9),
            file_type,
            timestamp: read_le32(payload, 17),
            version: read_le32(payload, 21),
            filename,
        };
        proof {
            assert(metadata.file_type@ =~= payload@.subrange(13, 17));
            assert(metadata.filename@ =~= payload@.subrange(25, 49));
        }
        Ok(metadata)
    }
}

impl Default for VexFileMetadata {
    /// Metadata with every field zero.
    fn default() -> (metadata: Self)
        ensures
            metadata.idx == 0,
            metadata.size == 0,
            metadata.addr == 0,
            metadata.crc == 0,
            metadata.file_type@ == Seq::new(4, |i: int| 0u8),
            metadata.timestamp == 0,
            metadata.version == 0,
            metadata.filename@ == Seq::new(24, |i: int| 0u8),
    {
        let metadata = VexFileMetadata {
            idx: 0,
            size: 0,
            addr: 0,
            crc: 0,
            file_type: [0u8; 4],
            timestamp: 0,
            version: 0,
            filename: [0u8; 24],
        };
        proof {
            assert(metadata.file_type@ =~= Seq::new(4, |i: int| 0u8));
            assert(metadata.filename@ =~= Seq::new(24, |i: int| 0u8));
        }
        metadata
    }
}

/// What the device answers when a transfer is opened.
#[derive(Clone, Copy, Debug, PartialEq, Eq, Structural)]
pub struct VexFiletransferMetadata {
    pub max_packet_size: u16,
    pub file_size: u32,
    pub crc: u32,
}

impl VexFiletransferMetadata {
    /// What the payload of the reply to `OpenFile` holds: the largest
    /// packet, the file size and the checksum, without gaps; `None`
    /// where the payload has fewer than ten bytes.
    pub open spec fn parse(payload: Seq<u8>) -> Option<VexFiletransferMetadata> {
        if payload.len() < 10 {
            None
        } else {
            Some(
                VexFiletransferMetadata {
                    max_packet_size: from_le16(payload.subrange(0, 2)),
                    file_size: from_le32(payload.subrange(2, 6)),
                    crc: from_le32(payload.subrange(6, 10)),
                },
            )
        }
    }

    /// Reads the payload of the reply to `OpenFile`.
    pub fn from_payload(payload: &[u8]) -> (r: Result<VexFiletransferMetadata, V5Error>)
        ensures
            r == match VexFiletransferMetadata::parse(payload@) {
                Some(metadata) => Ok::<VexFiletransferMetadata, V5Error>(metadata),
                None => Err(V5Error::InvalidPayloadLength),
            },
    {
        if payload.len() < 10 {
            return Err(V5Error::InvalidPayloadLength);
        }
        Ok(
            VexFiletransferMetadata {
                max_packet_size: read_le16(payload, 0),
                file_size: read_le32(payload, 2),
                crc: read_le32(payload, 6),
            },
        )
    }

    /// The number of file bytes that one `WriteFile` carries: three
    /// quarters of the largest packet, each part rounded down.
    pub open spec fn spec_write_chunk(self) -> nat {
        (self.max_packet_size / 2 + self.max_packet_size / 4) as nat
    }

    /// The number of file bytes that one `WriteFile` carries.
    pub fn write_chunk(&self) -> (chunk: u16)
        ensures
            chunk == self.spec_write_chunk(),
    {
        self.max_packet_size / 2 + self.max_packet_size / 4
    }
}

/// The number of file bytes that one `ReadFile` asks for.
pub const READ_CHUNK: u16 = 512;

/// `n` rounded up to a multiple of four.
pub open spec fn pad4(n: nat) -> nat {
    ((n + 3) / 4 * 4) as nat
}

/// A length rounded up to a multiple of four is a multiple of four,
/// is not less than the length, and exceeds it by three at most; a
/// multiple of four stays as it is.
pub proof fn lemma_pad4(n: nat)
    ensures
        pad4(n) % 4 == 0,
        n <= pad4(n) <= n + 3,
        n % 4 == 0 ==> pad4(n) == n,
{
}

/// The payload of `ReadFile`: the address, then the number of bytes.
pub open spec fn read_payload(offset: u32, length: u16) -> Seq<u8> {
    le32(offset) + le16(length)
}

/// The payload of `WriteFile`: the address, then the bytes.
pub open spec fn write_payload(offset: u32, data: Seq<u8>) -> Seq<u8> {
    le32(offset) + data
}

/// `data` with zeros behind it up to a multiple of four bytes.
pub open spec fn zero_padded(data: Seq<u8>) -> Seq<u8> {
    data + Seq::new((pad4(data.len()) - data.len()) as nat, |i: int| 0u8)
}

/// Builds the payload of `ReadFile`.
pub fn encode_read(offset: u32, length: u16) -> (payload: Vec<u8>)
    ensures
        payload@ == read_payload(offset, length),
        payload@.len() == 6,
{
    let mut payload: Vec<u8> = Vec::new();
    push_le32(&mut payload, offset);
    push_le16(&mut payload, length);
    payload
}

/// Builds the payload of `WriteFile`.
pub fn encode_write(offset: u32, data: &[u8]) -> (payload: Vec<u8>)
    ensures
        payload@ == write_payload(offset, data@),
        payload@.len() == 4 + data@.len(),
{
    let mut payload: Vec<u8> = Vec::new();
    push_le32(&mut payload, offset);
    push_all(&mut payload, data);
    payload
}

/// A copy of `data[from..to]` with zeros behind it up to a multiple of
/// four bytes.
pub fn padded_chunk(data: &[u8], from: usize, to: usize) -> (chunk: Vec<u8>)
    requires
        from <= to <= data@.len(),
    ensures
        chunk@ == zero_padded(data@.subrange(from as int, to as int)),
        chunk@.len() == pad4((to - from) as nat),
        chunk@.len() % 4 == 0,
        chunk@.subrange(0, to - from) == data@.subrange(from as int, to as int),
{
    let mut chunk = copy_range(data, from, to);
    let ghost body = chunk@;
    while chunk.len() % 4 != 0
        invariant
            body.len() == to - from,
            body.len() <= chunk@.len() <= pad4(body.len()),
            chunk@ == body + Seq::new((chunk@.len() - body.len()) as nat, |i: int| 0u8),
        decreases pad4(body.len()) - chunk@.len(),
    {
        chunk.push(0);
        proof {
            assert(chunk@ =~= body + Seq::new((chunk@.len() - body.len()) as nat, |i: int| 0u8));
        }
    }
    proof {
        assert(chunk@.subrange(0, to - from) =~= body);
    }
    chunk
}

/// The configuration flags of a brain. None is defined yet.
#[derive(Clone, Copy, Debug, PartialEq, Eq, Structural)]
pub struct V5BrainFlags {
    pub bits: u8,
}

impl V5BrainFlags {
    /// No flag.
    pub fn none() -> (flags: V5BrainFlags)
        ensures
            flags.bits == 0,
    {
        V5BrainFlags { bits: 0 }
    }

    /// The flags that `bits` stand for; none where a bit is set that no
    /// flag has.
    pub fn from_bits(bits: u8) -> (flags: Option<V5BrainFlags>)
        ensures
            flags == if bits == 0 {
                Some(V5BrainFlags { bits: 0 })
            } else {
                None
            },
    {
        if bits == 0 {
            Some(V5BrainFlags { bits: 0 })
        } else {
            None
        }
    }
}

/// The bit of a controller that is tethered by cable.
pub const CONNECTED_CABLE: u8 = 0x01;

/// The bit of a controller that is linked by radio.
pub const CONNECTED_WIRELESS: u8 = 0x02;

/// The configuration flags of a controller.
#[derive(Clone, Copy, Debug, PartialEq, Eq, Structural)]
pub struct V5ControllerFlags {
    pub bits: u8,
}

impl V5ControllerFlags {
    /// The flags that `bits` stand for; none where a bit is set that no
    /// flag has.
    pub open spec fn spec_from_bits(bits: u8) -> Option<V5ControllerFlags> {
        if bits < 4 {
            Some(V5ControllerFlags { bits })
        } else {
            None
        }
    }

    /// Whether every flag of `other` is set in these flags.
    pub open spec fn spec_contains(self, other: V5ControllerFlags) -> bool {
        self.bits & other.bits == other.bits
    }

    /// Whether the controller is connected to a brain, by cable or by
    /// radio.
    pub open spec fn spec_connected(self) -> bool {
        self.spec_contains(V5ControllerFlags { bits: CONNECTED_WIRELESS }) || self.spec_contains(
            V5ControllerFlags { bits: CONNECTED_CABLE },
        )
    }

    /// No flag.
    pub fn none() -> (flags: V5ControllerFlags)
        ensures
            flags.bits == 0,
    {
        V5ControllerFlags { bits: 0 }
    }

    /// The flag of a controller that is tethered by cable.
    pub fn connected_cable() -> (flags: V5ControllerFlags)
        ensures
            flags.bits == CONNECTED_CABLE,
    {
        V5ControllerFlags { bits: CONNECTED_CABLE }
    }

    /// The flag of a controller that is linked by radio.
    pub fn connected_wireless() -> (flags: V5ControllerFlags)
        ensures
            flags.bits == CONNECTED_WIRELESS,
    {
        V5ControllerFlags { bits: CONNECTED_WIRELESS }
    }

    /// The flags that `bits` stand for; none where a bit is set that no
    /// flag has.
    pub fn from_bits(bits: u8) -> (flags: Option<V5ControllerFlags>)
        ensures
            flags == V5ControllerFlags::spec_from_bits(bits),
    {
        if bits < 4 {
            Some(V5ControllerFlags { bits })
        } else {
            None
        }
    }

    /// The bits of these flags.
    pub fn bits(&self) -> (bits: u8)
        ensures
            bits == self.bits,
    {
        self.bits
    }

    /// Whether every flag of `other` is set in these flags.
    pub fn contains(&self, other: V5ControllerFlags) -> (held: bool)
        ensures
            held == self.spec_contains(other),
    {
        self.bits & other.bits == other.bits
    }

    /// Whether the controller is connected to a brain, by cable or by
    /// radio.
    pub fn connected(&self) -> (held: bool)
        ensures
            held == self.spec_connected(),
    {
        self.contains(V5ControllerFlags::connected_wireless()) || self.contains(
            V5ControllerFlags::connected_cable(),
        )
    }
}

/// A controller whose flags are in range is connected exactly when one
/// of its two flags is set.
pub proof fn lemma_connected_iff_nonzero(flags: V5ControllerFlags)
    requires
        flags.bits < 4,
    ensures
        flags.spec_connected() <==> flags.bits != 0,
{
    let b = flags.bits;
    assert(b < 4 ==> ((b & 2 == 2 || b & 1 == 1) <==> b != 0)) by (bit_vector);
}

/// Which product a device is, with its flags.
#[derive(Clone, Copy, Debug, PartialEq, Eq, Structural)]
pub enum VexProduct {
    V5Brain(V5BrainFlags),
    V5Controller(V5ControllerFlags),
}

impl VexProduct {
    /// The byte that stands for the product on the wire.
    pub open spec fn spec_code(self) -> u8 {
        match self {
            VexProduct::V5Brain(_) => 0x10,
            VexProduct::V5Controller(_) => 0x11,
        }
    }

    /// The product that a product byte and a flags byte stand for. Flags
    /// with a bit that no flag has count as no flags.
    pub open spec fn spec_from_bytes(kind: u8, flags: u8) -> Result<VexProduct, V5Error> {
        if kind == 0x10 {
            Ok(VexProduct::V5Brain(V5BrainFlags { bits: 0 }))
        } else if kind == 0x11 {
            Ok(
                VexProduct::V5Controller(
                    V5ControllerFlags {
                        bits: if flags < 4 {
                            flags
                        } else {
                            0
                        },
                    },
                ),
            )
        } else {
            Err(V5Error::InvalidProduct(kind))
        }
    }

    /// Whether the product is a controller.
    pub open spec fn spec_is_controller(self) -> bool {
        self is V5Controller
    }

    /// Whether the product is a controller that is connected to a brain.
    pub open spec fn spec_is_wireless(self) -> bool {
        match self {
            VexProduct::V5Controller(flags) => flags.spec_connected(),
            VexProduct::V5Brain(_) => false,
        }
    }

    /// The byte that stands for the product on the wire.
    pub fn code(self) -> (value: u8)
        ensures
            value == self.spec_code(),
    {
        match self {
            VexProduct::V5Brain(_) => 0x10,
            VexProduct::V5Controller(_) => 0x11,
        }
    }

    /// Reads a product byte and a flags byte.
    pub fn from_bytes(kind: u8, flags: u8) -> (r: Result<VexProduct, V5Error>)
        ensures
            r == VexProduct::spec_from_bytes(kind, flags),
    {
        match kind {
            0x10 => {
                let flags = match V5BrainFlags::from_bits(flags) {
                    Some(f) => f,
                    None => V5BrainFlags::none(),
                };
                Ok(VexProduct::V5Brain(flags))
            },
            0x11 => {
                let flags = match V5ControllerFlags::from_bits(flags) {
                    Some(f) => f,
                    None => V5ControllerFlags::none(),
                };
                Ok(VexProduct::V5Controller(flags))
            },
            _ => Err(V5Error::InvalidProduct(kind)),
        }
    }

    /// Whether the product is a controller.
    pub fn is_controller(&self) -> (held: bool)
        ensures
            held == self.spec_is_controller(),
    {
        match self {
            VexProduct::V5Controller(_) => true,
            VexProduct::V5Brain(_) => false,
        }
    }

    /// Whether the product is a controller that is connected to a brain.
    pub fn is_wireless(&self) -> (held: bool)
        ensures
            held == self.spec_is_wireless(),
    {
        match self {
            VexProduct::V5Controller(flags) => flags.connected(),
            VexProduct::V5Brain(_) => false,
        }
    }
}

impl From<VexProduct> for u8 {
    /// The byte that stands for the product on the wire.
    fn from(product: VexProduct) -> (value: u8) {
        product.code()
    }
}

impl vstd::std_specs::convert::FromSpecImpl<VexProduct> for u8 {
    open spec fn obeys_from_spec() -> bool {
        true
    }

    open spec fn from_spec(product: VexProduct) -> u8 {
        product.spec_code()
    }
}

impl TryFrom<(u8, u8)> for VexProduct {
    type Error = V5Error;

    /// Reads a product byte and a flags byte.
    fn try_from(value: (u8, u8)) -> (r: Result<VexProduct, V5Error>) {
        VexProduct::from_bytes(value.0, value.1)
    }
}

impl vstd::std_specs::convert::TryFromSpecImpl<(u8, u8)> for VexProduct {
    open spec fn obeys_try_from_spec() -> bool {
        true
    }

    open spec fn try_from_spec(value: (u8, u8)) -> Result<VexProduct, V5Error> {
        VexProduct::spec_from_bytes(value.0, value.1)
    }
}

/// The version of a V5 device: five octets of firmware version, and the
/// product.
#[derive(Clone, Copy, Debug, PartialEq, Eq)]
pub struct V5DeviceVersion {
    pub system_version: (u8, u8, u8, u8, u8),
    pub product_type: VexProduct,
}

impl V5DeviceVersion {
    /// What the payload of the reply to `GetSystemVersion` holds: five
    /// version octets, the product byte and the flags byte.
    pub open spec fn parse(payload: Seq<u8>) -> Result<V5DeviceVersion, V5Error> {
        if payload.len() < 7 {
            Err(V5Error::InvalidPayloadLength)
        } else {
            match VexProduct::spec_from_bytes(payload[5], payload[6]) {
                Err(e) => Err(e),
                Ok(product_type) => Ok(
                    V5DeviceVersion {
                        system_version: (
                            payload[0],
                            payload[1],
                            payload[2],
                            payload[3],
                            payload[4],
                        ),
                        product_type,
                    },
                ),
            }
        }
    }

    /// Reads the payload of the reply to `GetSystemVersion`.
    pub fn from_payload(payload: &[u8]) -> (r: Result<V5DeviceVersion, V5Error>)
        ensures
            r == V5DeviceVersion::parse(payload@),
    {
        if payload.len() < 7 {
            return Err(V5Error::InvalidPayloadLength);
        }
        match VexProduct::from_bytes(payload[5], payload[6]) {
            Err(e) => Err(e),
            Ok(product_type) => Ok(
                V5DeviceVersion {
                    system_version: (payload[0], payload[1], payload[2], payload[3], payload[4]),
                    product_type,
                },
            ),
        }
    }
}

/// The radio channel of a controller.
#[derive(Clone, Copy, Debug, PartialEq, Eq, Structural)]
pub enum V5ControllerChannel {
    /// The channel of ordinary operation.
    PIT,
    /// The channel for sending files to the brain.
    UPLOAD,
    /// The channel for fetching files from the brain.
    DOWNLOAD,
}

impl V5ControllerChannel {
    /// The byte that stands for this channel on the wire.
    pub open spec fn spec_code(self) -> u8 {
        match self {
            V5ControllerChannel::PIT => 0,
            V5ControllerChannel::DOWNLOAD => 1,
            V5ControllerChannel::UPLOAD => 2,
        }
    }

    /// The byte that stands for this channel on the wire.
    pub fn code(self) -> (value: u8)
        ensures
            value == self.spec_code(),
    {
        match self {
            V5ControllerChannel::PIT => 0,
            V5ControllerChannel::DOWNLOAD => 1,
            V5ControllerChannel::UPLOAD => 2,
        }
    }
}

} // verus!
