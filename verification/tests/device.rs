use cargo_v5::checksum::{crc16_checksum, crc32_checksum};
use cargo_v5::error::V5Error;
use cargo_v5::util::{NoProgress, Progress, ProgressSink};
use cargo_v5::v5::device::device::{version_from_reply, V5FileHandle, WIRELESS_TIMEOUT_MS};
use chrono::TimeZone;
use cargo_v5::v5::device::{
    encode_name, encode_read, encode_write, fill_name, padded_chunk, truncate_name, v5_timestamp,
    V5BrainFlags, V5ControllerChannel, V5ControllerFlags, V5DeviceVersion, VexFileMetadata,
    VexFileMode, VexFileTarget, VexFiletransferMetadata, VexInitialFileMetadata, VexProduct,
    VexV5Device, VexVID, READ_CHUNK, SECONDS_TO_2000, USER_FLASH_BASE,
};
use cargo_v5::v5::protocol::vex::{decode_extended_frame, SerialLink};
use cargo_v5::v5::protocol::{
    VexACKType, VexDeviceCommand, VexDeviceType, VexFiletransferFinished, VexProtocolWrapper,
};

/// A stand-in for a V5 device on the other end of the link: it reads
/// each request as a device would and queues the reply.
struct FakeDevice {
    /// `None` for a brain, the flags byte for a controller.
    controller: Option<u8>,
    max_packet_size: u16,
    /// Name field, address and contents of each file on the device.
    files: Vec<(Vec<u8>, u32, Vec<u8>)>,
    /// Every request in order: the opcode (of the extended packet, or
    /// of the simple one) and the payload.
    requests: Vec<(u8, Vec<u8>)>,
    /// The bytes of every write, as handed to the link.
    writes: Vec<Vec<u8>>,
    /// The deadline of every read.
    timeouts: Vec<u64>,
    replies: Vec<Result<Vec<u8>, V5Error>>,
    /// Refuse the request with this index with this acknowledgement.
    nack_at: Option<(usize, u8)>,
    /// Fail the write of the request with this index.
    fail_send_at: Option<usize>,
    /// Answer every request of this opcode with this acknowledgement.
    nack_opcode: Option<(u8, u8)>,
    written: Vec<(u32, Vec<u8>)>,
    channels: Vec<u8>,
    exits: Vec<u8>,
    open_size: u32,
}

fn le32(x: u32) -> Vec<u8> {
    x.to_le_bytes().to_vec()
}

fn name_field_of(name: &str) -> Vec<u8> {
    let mut field = vec![0u8; 24];
    for (i, b) in name.bytes().take(23).enumerate() {
        field[i] = b;
    }
    field
}

/// An extended reply: header, opcode, two length bytes (high first),
/// acknowledgement, payload, and the CRC-16 that makes the whole
/// frame sum to zero.
fn extended_reply(ack: u8, payload: &[u8]) -> Vec<u8> {
    let len = 1 + payload.len() + 2;
    let mut frame = vec![0xAA, 0x55, 0x56, (len >> 8) as u8, (len & 0xff) as u8, ack];
    frame.extend_from_slice(payload);
    let crc = crc16_checksum(&frame);
    frame.push((crc >> 8) as u8);
    frame.push((crc & 0xff) as u8);
    frame
}

fn simple_reply(opcode: u8, payload: &[u8]) -> Vec<u8> {
    let mut frame = vec![0xAA, 0x55, opcode, payload.len() as u8];
    frame.extend_from_slice(payload);
    frame
}

impl FakeDevice {
    fn brain() -> FakeDevice {
        FakeDevice {
            controller: None,
            max_packet_size: 512,
            files: Vec::new(),
            requests: Vec::new(),
            writes: Vec::new(),
            timeouts: Vec::new(),
            replies: Vec::new(),
            nack_at: None,
            fail_send_at: None,
            nack_opcode: None,
            written: Vec::new(),
            channels: Vec::new(),
            exits: Vec::new(),
            open_size: 0,
        }
    }

    fn controller(flags: u8) -> FakeDevice {
        let mut device = FakeDevice::brain();
        device.controller = Some(flags);
        device
    }

    fn with_file(mut self, name: &str, addr: u32, contents: Vec<u8>) -> FakeDevice {
        self.files.push((name_field_of(name), addr, contents));
        self
    }

    fn opcodes(&self) -> Vec<u8> {
        self.requests.iter().map(|r| r.0).collect()
    }

    fn answer(&mut self, opcode: u8, payload: &[u8]) -> Vec<u8> {
        match opcode {
            0x10 => {
                self.channels.push(payload[0]);
                extended_reply(0x76, &[])
            }
            0x19 => {
                let name = payload[2..26].to_vec();
                match self.files.iter().position(|f| f.0 == name) {
                    None => extended_reply(0xD9, &[]),
                    Some(i) => {
                        let file = &self.files[i];
                        let mut body = vec![i as u8];
                        body.extend(le32(file.2.len() as u32));
                        body.extend(le32(file.1));
                        body.extend(le32(crc32_checksum(&file.2)));
                        body.extend_from_slice(b"bin\0");
                        body.extend(le32(7));
                        body.extend(le32(0x0100_0000));
                        body.extend_from_slice(&file.0);
                        extended_reply(0x76, &body)
                    }
                }
            }
            0x11 => {
                let length = u32::from_le_bytes([payload[4], payload[5], payload[6], payload[7]]);
                let crc = u32::from_le_bytes([payload[12], payload[13], payload[14], payload[15]]);
                let size = if payload[0] == 2 {
                    let name = payload[28..52].to_vec();
                    match self.files.iter().find(|f| f.0 == name) {
                        Some(file) => file.2.len() as u32,
                        None => length,
                    }
                } else {
                    length
                };
                self.open_size = size;
                let mut body = self.max_packet_size.to_le_bytes().to_vec();
                body.extend(le32(size));
                body.extend(le32(crc));
                extended_reply(0x76, &body)
            }
            0x13 => {
                let addr = u32::from_le_bytes([payload[0], payload[1], payload[2], payload[3]]);
                self.written.push((addr, payload[4..].to_vec()));
                extended_reply(0x76, &[])
            }
            0x14 => {
                let addr = u32::from_le_bytes([payload[0], payload[1], payload[2], payload[3]]);
                let len = u16::from_le_bytes([payload[4], payload[5]]) as usize;
                let mut body = le32(addr);
                for k in 0..len {
                    let at = addr as usize + k;
                    let byte = self
                        .files
                        .iter()
                        .find(|f| at >= f.1 as usize && at < f.1 as usize + f.2.len())
                        .map(|f| f.2[at - f.1 as usize])
                        .unwrap_or(0);
                    body.push(byte);
                }
                extended_reply(0x76, &body)
            }
            0x12 => {
                self.exits.push(payload[0]);
                extended_reply(0x76, &[])
            }
            _ => extended_reply(0x76, &[]),
        }
    }
}

impl SerialLink for FakeDevice {
    fn send(&mut self, bytes: &[u8]) -> bool {
        let index = self.requests.len();
        self.writes.push(bytes.to_vec());
        let (opcode, payload) = match decode_extended_frame(bytes) {
            Ok((command, payload)) => (command.code(), payload),
            Err(_) => (bytes[4], bytes[5..].to_vec()),
        };
        self.requests.push((opcode, payload.clone()));
        if self.fail_send_at == Some(index) {
            return false;
        }
        let reply = if opcode == 0xA4 {
            let (product, flags) = match self.controller {
                None => (0x10, 0),
                Some(flags) => (0x11, flags),
            };
            simple_reply(0xA4, &[1, 0, 13, 0, 0, product, flags, 0])
        } else if let Some((at, ack)) = self.nack_at.filter(|n| n.0 == index) {
            let _ = at;
            extended_reply(ack, &[])
        } else if let Some((_, ack)) = self.nack_opcode.filter(|n| n.0 == opcode) {
            extended_reply(ack, &[])
        } else {
            self.answer(opcode, &payload)
        };
        self.replies.push(Ok(reply));
        true
    }

    fn read_frame(&mut self, timeout_ms: u64) -> Result<Vec<u8>, V5Error> {
        self.timeouts.push(timeout_ms);
        if self.replies.is_empty() {
            Err(V5Error::HeaderSyncTimeout)
        } else {
            self.replies.remove(0)
        }
    }
}

fn session(fake: FakeDevice) -> VexV5Device<FakeDevice> {
    VexV5Device::new(VexProtocolWrapper::new(VexDeviceType::System, fake))
}

fn finish(device: VexV5Device<FakeDevice>) -> FakeDevice {
    device.into_inner().into_inner()
}

/// A sink that keeps what it is told.
struct Amounts(Vec<u32>);

impl ProgressSink for Amounts {
    fn advance(&mut self, bytes: u32) {
        self.0.push(bytes);
    }
}

fn upload_metadata(length: u32) -> VexInitialFileMetadata {
    let mut metadata = VexInitialFileMetadata::default();
    metadata.length = length;
    metadata
}

fn download_metadata(length: u32, addr: u32) -> VexInitialFileMetadata {
    let mut metadata = VexInitialFileMetadata::default();
    metadata.function = VexFileMode::Download(VexFileTarget::FLASH, false);
    metadata.length = length;
    metadata.addr = addr;
    metadata
}

fn contents(len: usize) -> Vec<u8> {
    (0..len).map(|i| (i * 7 + 3) as u8).collect()
}

#[test]
fn new_session_asks_for_the_version_once() {
    let device = session(FakeDevice::brain());
    assert_eq!(device.timeout(), None);
    assert!(!device.is_open());
    assert!(!device.links_names());
    assert!(!device.is_guarded());
    let fake = finish(device);
    assert_eq!(fake.writes, vec![vec![0xC9, 0x36, 0xB8, 0x47, 0xA4]]);
    assert_eq!(fake.timeouts, vec![100]);
}

#[test]
fn session_with_a_connected_controller_waits_five_seconds() {
    for flags in [0x01u8, 0x02, 0x03] {
        let device = session(FakeDevice::controller(flags));
        assert_eq!(device.timeout(), Some(5000));
        assert_eq!(device.timeout(), Some(WIRELESS_TIMEOUT_MS));
    }
    let device = session(FakeDevice::controller(0x00));
    assert_eq!(device.timeout(), None);
    let device = session(FakeDevice::controller(0x04));
    assert_eq!(device.timeout(), None);
}

#[test]
fn session_without_an_answer_has_no_deadline() {
    let mut fake = FakeDevice::controller(0x02);
    fake.fail_send_at = Some(0);
    let mut device = session(fake);
    assert_eq!(device.timeout(), None);
    assert_eq!(device.is_wireless(), Ok(true));
}

#[test]
fn version_of_a_brain_and_of_a_controller() {
    let mut device = session(FakeDevice::brain());
    let version = device.get_device_version().unwrap();
    assert_eq!(version.system_version, (1, 0, 13, 0, 0));
    assert_eq!(version.product_type, VexProduct::V5Brain(V5BrainFlags { bits: 0 }));
    assert_eq!(device.is_controller(), Ok(false));
    assert_eq!(device.is_wireless(), Ok(false));
    let mut device = session(FakeDevice::controller(0x02));
    let version = device.get_device_version().unwrap();
    assert_eq!(version.product_type, VexProduct::V5Controller(V5ControllerFlags { bits: 2 }));
    assert_eq!(device.is_controller(), Ok(true));
    assert_eq!(device.is_wireless(), Ok(true));
    let mut device = session(FakeDevice::controller(0x00));
    assert_eq!(device.is_controller(), Ok(true));
    assert_eq!(device.is_wireless(), Ok(false));
}

#[test]
fn version_payload_is_read_field_by_field() {
    let version = V5DeviceVersion::from_payload(&[9, 8, 7, 6, 5, 0x11, 0x01, 0xEE]).unwrap();
    assert_eq!(version.system_version, (9, 8, 7, 6, 5));
    assert_eq!(version.product_type, VexProduct::V5Controller(V5ControllerFlags { bits: 1 }));
    assert_eq!(
        V5DeviceVersion::from_payload(&[9, 8, 7, 6, 5, 0x11]),
        Err(V5Error::InvalidPayloadLength)
    );
    assert_eq!(
        V5DeviceVersion::from_payload(&[9, 8, 7, 6, 5, 0x12, 0]),
        Err(V5Error::InvalidProduct(0x12))
    );
}

#[test]
fn products_and_their_flags() {
    assert_eq!(VexProduct::from_bytes(0x10, 0xFF), Ok(VexProduct::V5Brain(V5BrainFlags { bits: 0 })));
    assert_eq!(
        VexProduct::from_bytes(0x11, 0x03),
        Ok(VexProduct::V5Controller(V5ControllerFlags { bits: 3 }))
    );
    assert_eq!(
        VexProduct::from_bytes(0x11, 0x04),
        Ok(VexProduct::V5Controller(V5ControllerFlags { bits: 0 }))
    );
    assert_eq!(VexProduct::from_bytes(0x00, 0), Err(V5Error::InvalidProduct(0)));
    assert_eq!(
        VexProduct::try_from((0x11, 0x02)),
        Ok(VexProduct::V5Controller(V5ControllerFlags { bits: 2 }))
    );
    assert_eq!(VexProduct::try_from((0x13, 0x02)), Err(V5Error::InvalidProduct(0x13)));
    assert_eq!(u8::from(VexProduct::V5Brain(V5BrainFlags::none())), 0x10);
    let code: u8 = VexProduct::V5Controller(V5ControllerFlags::none()).into();
    assert_eq!(code, 0x11);
    assert_eq!(VexProduct::V5Brain(V5BrainFlags::none()).code(), 0x10);
    assert_eq!(VexProduct::V5Controller(V5ControllerFlags::none()).code(), 0x11);
    assert_eq!(V5ControllerFlags::from_bits(3).map(|f| f.bits()), Some(3));
    assert_eq!(V5ControllerFlags::from_bits(4), None);
    assert_eq!(V5BrainFlags::from_bits(1), None);
    assert!(V5ControllerFlags { bits: 3 }.contains(V5ControllerFlags::connected_cable()));
    assert!(!V5ControllerFlags { bits: 2 }.contains(V5ControllerFlags::connected_cable()));
    assert!(V5ControllerFlags { bits: 2 }.connected());
    assert!(!V5ControllerFlags { bits: 0 }.connected());
}

#[test]
fn extended_reply_where_the_version_is_expected() {
    let mut fake = FakeDevice::controller(0x02);
    fake.replies.push(Ok(extended_reply(0x76, &[1, 0, 13, 0, 0, 0x11, 2])));
    let mut device = session(fake);
    assert_eq!(device.timeout(), None);
    assert!(device.get_device_version().is_ok());
    assert_eq!(
        version_from_reply(VexDeviceCommand::Extended, &[1, 0, 13, 0, 0, 0x10, 0]),
        Err(V5Error::UnexpectedOpcode)
    );
    assert!(version_from_reply(VexDeviceCommand::GetSystemVersion, &[1, 0, 13, 0, 0, 0x10, 0]).is_ok());
    assert!(version_from_reply(VexDeviceCommand::ExecuteFile, &[1, 0, 13, 0, 0, 0x10, 0]).is_ok());
}

#[test]
fn channels_have_their_codes() {
    assert_eq!(V5ControllerChannel::PIT.code(), 0);
    assert_eq!(V5ControllerChannel::DOWNLOAD.code(), 1);
    assert_eq!(V5ControllerChannel::UPLOAD.code(), 2);
}

#[test]
fn switch_channel_sends_one_byte() {
    let mut device = session(FakeDevice::controller(0x02));
    assert_eq!(device.switch_channel(Some(V5ControllerChannel::UPLOAD)), Ok(()));
    assert_eq!(device.switch_channel(Some(V5ControllerChannel::DOWNLOAD)), Ok(()));
    assert_eq!(device.switch_channel(None), Ok(()));
    assert_eq!(device.switch_channel(None), Ok(()));
    let fake = finish(device);
    assert_eq!(fake.channels, vec![2, 1, 0, 0]);
    assert_eq!(
        fake.requests[1..].to_vec(),
        vec![(0x10, vec![2]), (0x10, vec![1]), (0x10, vec![0]), (0x10, vec![0])]
    );
    assert_eq!(fake.timeouts, vec![100, 5000, 5000, 5000, 5000]);
}

#[test]
fn switch_channel_surfaces_the_refusal() {
    let mut fake = FakeDevice::controller(0x02);
    fake.nack_at = Some((1, 0xD5));
    let mut device = session(fake);
    assert_eq!(
        device.switch_channel(Some(V5ControllerChannel::UPLOAD)),
        Err(V5Error::Nack(VexACKType::NACKInitializationInvalid))
    );
    let mut fake = FakeDevice::controller(0x02);
    fake.fail_send_at = Some(1);
    let mut device = session(fake);
    assert_eq!(device.switch_channel(None), Err(V5Error::Io));
    assert_eq!(finish(device).timeouts.len(), 1);
}

#[test]
fn name_fields() {
    let field = encode_name("slot_1.bin").unwrap();
    assert_eq!(&field[..10], b"slot_1.bin");
    assert!(field[10..].iter().all(|b| *b == 0));
    let exact = "abcdefghijklmnopqrstuvw";
    assert_eq!(exact.len(), 23);
    let field = encode_name(exact).unwrap();
    assert_eq!(&field[..23], exact.as_bytes());
    assert_eq!(field[23], 0);
    assert_eq!(encode_name("abcdefghijklmnopqrstuvwx"), Err(V5Error::InvalidName));
    assert_eq!(encode_name("caf\u{e9}.bin"), Err(V5Error::InvalidName));
    assert_eq!(encode_name(""), Ok([0u8; 24]));
    let cut = truncate_name("abcdefghijklmnopqrstuvwxyz").unwrap();
    assert_eq!(&cut[..23], b"abcdefghijklmnopqrstuvw");
    assert_eq!(cut[23], 0);
    assert_eq!(truncate_name("caf\u{e9}"), Err(V5Error::InvalidName));
    assert_eq!(fill_name(b"ab"), truncate_name("ab").unwrap());
    assert_eq!(encode_name("ascii.txt").unwrap().to_vec(), {
        let name = ascii::AsciiStr::from_ascii("ascii.txt").unwrap();
        let mut field = name.as_bytes().to_vec();
        field.resize(24, 0);
        field
    });
    assert!(ascii::AsciiStr::from_ascii("caf\u{e9}").is_err());
}

#[test]
fn open_payload_has_sixteen_fields() {
    let metadata = VexInitialFileMetadata {
        function: VexFileMode::Upload(VexFileTarget::FLASH, true),
        vid: VexVID::PROS,
        options: 0x04,
        length: 0x01020304,
        addr: 0x03800000,
        crc: 0xA1B2C3D4,
        file_type: *b"ini\0",
        timestamp: 0x11223344,
        version: 0x01000000,
    };
    let name = encode_name("slot_1.ini").unwrap();
    let payload = metadata.encode_open(&name);
    assert_eq!(payload.len(), 52);
    assert_eq!(&payload[..4], &[1, 1, 24, 0x05]);
    assert_eq!(&payload[4..8], &[0x04, 0x03, 0x02, 0x01]);
    assert_eq!(&payload[8..12], &[0x00, 0x00, 0x80, 0x03]);
    assert_eq!(&payload[12..16], &[0xD4, 0xC3, 0xB2, 0xA1]);
    assert_eq!(&payload[16..20], b"ini\0");
    assert_eq!(&payload[20..24], &[0x44, 0x33, 0x22, 0x11]);
    assert_eq!(&payload[24..28], &[0x00, 0x00, 0x00, 0x01]);
    assert_eq!(&payload[28..], &name[..]);
    let reference = bincode::serialize(&(
        1u8,
        1u8,
        24u8,
        0x05u8,
        0x01020304u32,
        0x03800000u32,
        0xA1B2C3D4u32,
        *b"ini\0",
        0x11223344u32,
        0x01000000u32,
        name,
    ))
    .unwrap();
    assert_eq!(payload, reference);
    let download = VexInitialFileMetadata {
        function: VexFileMode::Download(VexFileTarget::SCREEN, false),
        vid: VexVID::USER,
        ..metadata
    };
    assert_eq!(&download.encode_open(&name)[..4], &[2, 2, 1, 0x04]);
    assert_eq!(metadata.encode_link(&name)[..2].to_vec(), vec![24, 0x05]);
    assert_eq!(metadata.encode_link(&name).len(), 26);
}

#[test]
fn codes_of_targets_and_namespaces() {
    assert_eq!(VexFileTarget::DDR.code(), 0);
    assert_eq!(VexFileTarget::FLASH.code(), 1);
    assert_eq!(VexFileTarget::SCREEN.code(), 2);
    for (vid, code) in [
        (VexVID::USER, 1u8),
        (VexVID::SYSTEM, 15),
        (VexVID::RMS, 16),
        (VexVID::PROS, 24),
        (VexVID::MW, 32),
    ] {
        assert_eq!(vid.code(), code);
        assert_eq!(VexVID::from_u8(code), Some(vid));
    }
    assert_eq!(VexVID::from_u8(0), None);
    assert_eq!(VexFileMode::Upload(VexFileTarget::DDR, false).triple(), (1, 0, 0));
    assert_eq!(VexFileMode::Download(VexFileTarget::SCREEN, true).triple(), (2, 2, 1));
}

#[test]
fn default_metadata() {
    let metadata = VexInitialFileMetadata::default();
    assert_eq!(metadata.function, VexFileMode::Upload(VexFileTarget::FLASH, true));
    assert_eq!(metadata.vid, VexVID::USER);
    assert_eq!(metadata.options, 0);
    assert_eq!(metadata.length, 0);
    assert_eq!(metadata.addr, 0x03800000);
    assert_eq!(metadata.addr, USER_FLASH_BASE);
    assert_eq!(metadata.crc, 0);
    assert_eq!(&metadata.file_type, b"bin\0");
    assert_eq!(metadata.timestamp, 0);
    assert_eq!(metadata.version, 0);
    let stamped = VexInitialFileMetadata::at(12345);
    assert_eq!(stamped.timestamp, 12345);
    assert_eq!(VexInitialFileMetadata { timestamp: 0, ..stamped }, metadata);
    let found = VexFileMetadata::default();
    assert_eq!(found.size, 0);
    assert_eq!(found.filename, [0u8; 24]);
    assert_eq!(found.file_type, [0u8; 4]);
}

#[test]
fn time_stamps_count_from_2000() {
    let epoch = chrono::Utc.with_ymd_and_hms(2000, 1, 1, 0, 0, 0).unwrap().timestamp();
    assert_eq!(epoch, SECONDS_TO_2000);
    assert_eq!(v5_timestamp(SECONDS_TO_2000), Some(0));
    assert_eq!(v5_timestamp(SECONDS_TO_2000 - 1), None);
    assert_eq!(v5_timestamp(0), None);
    assert_eq!(v5_timestamp(-5), None);
    let later = chrono::Utc.with_ymd_and_hms(2024, 3, 9, 12, 0, 5).unwrap().timestamp();
    assert_eq!(v5_timestamp(later), Some((later - epoch) as u32));
    assert_eq!(v5_timestamp(SECONDS_TO_2000 + 0xFFFF_FFFF), Some(u32::MAX));
    assert_eq!(v5_timestamp(SECONDS_TO_2000 + 0x1_0000_0000), None);
    assert_eq!(v5_timestamp(i64::MAX), None);
    assert_eq!(v5_timestamp(i64::MIN), None);
}

#[test]
fn file_metadata_is_read_field_by_field() {
    let mut payload = vec![3u8];
    payload.extend(le32(600));
    payload.extend(le32(0x03800400));
    payload.extend(le32(0xCAFEBABE));
    payload.extend_from_slice(b"bin\0");
    payload.extend(le32(77));
    payload.extend(le32(0x01000000));
    payload.extend(name_field_of("slot_2.bin"));
    assert_eq!(payload.len(), 49);
    let metadata = VexFileMetadata::from_payload(&payload).unwrap();
    assert_eq!(metadata.idx, 3);
    assert_eq!(metadata.size, 600);
    assert_eq!(metadata.addr, 0x03800400);
    assert_eq!(metadata.crc, 0xCAFEBABE);
    assert_eq!(&metadata.file_type, b"bin\0");
    assert_eq!(metadata.timestamp, 77);
    assert_eq!(metadata.version, 0x01000000);
    assert_eq!(metadata.filename.to_vec(), name_field_of("slot_2.bin"));
    let reference: (u8, u32, u32, u32, [u8; 4], u32, u32, [u8; 24]) =
        bincode::deserialize(&payload).unwrap();
    assert_eq!(
        reference,
        (
            metadata.idx,
            metadata.size,
            metadata.addr,
            metadata.crc,
            metadata.file_type,
            metadata.timestamp,
            metadata.version,
            metadata.filename
        )
    );
    payload.extend_from_slice(&[1, 2, 3]);
    assert_eq!(VexFileMetadata::from_payload(&payload), Ok(metadata));
    assert_eq!(VexFileMetadata::from_payload(&payload[..48]), Err(V5Error::InvalidPayloadLength));
}

#[test]
fn transfer_metadata_is_read_field_by_field() {
    let payload = [0x00, 0x02, 0x01, 0x04, 0x00, 0x00, 0x78, 0x56, 0x34, 0x12, 0xFF];
    let metadata = VexFiletransferMetadata::from_payload(&payload).unwrap();
    assert_eq!(metadata.max_packet_size, 512);
    assert_eq!(metadata.file_size, 1025);
    assert_eq!(metadata.crc, 0x12345678);
    let reference: (u16, u32, u32) = bincode::deserialize(&payload).unwrap();
    assert_eq!(reference, (512, 1025, 0x12345678));
    assert_eq!(
        VexFiletransferMetadata::from_payload(&payload[..9]),
        Err(V5Error::InvalidPayloadLength)
    );
    assert_eq!(metadata.write_chunk(), 384);
    let odd = VexFiletransferMetadata { max_packet_size: 7, file_size: 0, crc: 0 };
    assert_eq!(odd.write_chunk(), 4);
    let largest = VexFiletransferMetadata { max_packet_size: 0xFFFF, file_size: 0, crc: 0 };
    assert_eq!(largest.write_chunk(), 49150);
    let none = VexFiletransferMetadata { max_packet_size: 1, file_size: 0, crc: 0 };
    assert_eq!(none.write_chunk(), 0);
}

#[test]
fn read_and_write_payloads() {
    assert_eq!(encode_read(0x03800200, 88), vec![0x00, 0x02, 0x80, 0x03, 88, 0]);
    assert_eq!(encode_read(0x03800200, 88), bincode::serialize(&(0x03800200u32, 88u16)).unwrap());
    assert_eq!(encode_write(0x01020304, &[9, 8]), vec![0x04, 0x03, 0x02, 0x01, 9, 8]);
    let mut reference = bincode::serialize(&0x01020304u32).unwrap();
    reference.extend_from_slice(&[9, 8]);
    assert_eq!(encode_write(0x01020304, &[9, 8]), reference);
    assert_eq!(
        VexFileMetadata::encode_query(VexVID::USER, 0, &encode_name("a").unwrap()),
        bincode::serialize(&(1u8, 0u8, encode_name("a").unwrap())).unwrap()
    );
}

#[test]
fn chunks_are_padded_with_zeros_to_a_multiple_of_four() {
    let data = contents(10);
    assert_eq!(padded_chunk(&data, 0, 0), Vec::<u8>::new());
    assert_eq!(padded_chunk(&data, 2, 3), vec![data[2], 0, 0, 0]);
    assert_eq!(padded_chunk(&data, 0, 4), data[0..4].to_vec());
    assert_eq!(padded_chunk(&data, 1, 6), vec![data[1], data[2], data[3], data[4], data[5], 0, 0, 0]);
    assert_eq!(padded_chunk(&data, 0, 10).len(), 12);
}

#[test]
fn metadata_query_uses_the_cut_name() {
    let fake = FakeDevice::brain().with_file("abcdefghijklmnopqrstuvw", 0x03800000, contents(40));
    let mut device = session(fake);
    let found = device
        .get_file_metadata("abcdefghijklmnopqrstuvwxyz".to_string(), None, None)
        .unwrap();
    assert_eq!(found.size, 40);
    assert_eq!(found.addr, 0x03800000);
    assert_eq!(found.crc, crc32_checksum(&contents(40)));
    assert_eq!(
        device.get_file_metadata("caf\u{e9}".to_string(), None, None),
        Err(V5Error::InvalidName)
    );
    let found = device
        .get_file_metadata("abcdefghijklmnopqrstuvw".to_string(), Some(VexVID::PROS), Some(3))
        .unwrap();
    assert_eq!(found.size, 40);
    let fake = finish(device);
    assert_eq!(fake.requests.len(), 3);
    assert_eq!(fake.requests[1].0, 0x19);
    assert_eq!(&fake.requests[1].1[..2], &[1, 0]);
    assert_eq!(fake.requests[1].1[2..].to_vec(), name_field_of("abcdefghijklmnopqrstuvw"));
    assert_eq!(&fake.requests[2].1[..2], &[24, 3]);
    assert_eq!(fake.timeouts, vec![100, 100, 100]);
}

#[test]
fn missing_file_is_file_not_found() {
    let mut device = session(FakeDevice::brain());
    assert_eq!(
        device.get_file_metadata("nothing.bin".to_string(), None, None),
        Err(V5Error::FileNotFound)
    );
    let mut fake = FakeDevice::brain();
    fake.nack_opcode = Some((0x19, 0xDA));
    let mut device = session(fake);
    assert_eq!(
        device.get_file_metadata("nothing.bin".to_string(), None, None),
        Err(V5Error::Nack(VexACKType::NACKNoFileRoom))
    );
}

#[test]
fn open_gives_a_handle_with_what_the_device_answered() {
    let mut device = session(FakeDevice::controller(0x01));
    let handle = device.open("slot_1.bin".to_string(), Some(upload_metadata(1025))).unwrap();
    assert!(device.is_open());
    assert!(!handle.is_closed());
    assert_eq!(
        handle.transfer_metadata(),
        VexFiletransferMetadata { max_packet_size: 512, file_size: 1025, crc: 0 }
    );
    assert_eq!(handle.metadata(), upload_metadata(1025));
    assert_eq!(handle.file_name().to_vec(), name_field_of("slot_1.bin"));
    assert_eq!(handle.timeout(), Some(5000));
    let fake = finish(device);
    assert_eq!(fake.requests[1].0, 0x11);
    assert_eq!(fake.requests[1].1, upload_metadata(1025).encode_open(&encode_name("slot_1.bin").unwrap()));
    assert_eq!(fake.timeouts, vec![100, 5000]);
}

#[test]
fn open_without_metadata_uses_the_default() {
    let mut device = session(FakeDevice::brain());
    let handle = device.open("a.bin".to_string(), None).unwrap();
    assert_eq!(handle.metadata(), VexInitialFileMetadata::default());
    let fake = finish(device);
    assert_eq!(
        fake.requests[1].1,
        VexInitialFileMetadata::default().encode_open(&encode_name("a.bin").unwrap())
    );
}

#[test]
fn second_open_is_a_protocol_state_failure() {
    let mut device = session(FakeDevice::brain());
    let mut handle = device.open("a.bin".to_string(), None).unwrap();
    assert_eq!(device.open("b.bin".to_string(), None).err(), Some(V5Error::ProtocolState));
    assert!(device.is_open());
    handle.close(&mut device, VexFiletransferFinished::DoNothing).unwrap();
    assert!(!device.is_open());
    assert!(device.open("b.bin".to_string(), None).is_ok());
    assert_eq!(finish(device).opcodes(), vec![0xA4, 0x11, 0x12, 0x11]);
}

#[test]
fn open_refuses_a_bad_name_and_sends_nothing() {
    let mut device = session(FakeDevice::brain());
    assert_eq!(
        device.open("abcdefghijklmnopqrstuvwx".to_string(), None).err(),
        Some(V5Error::InvalidName)
    );
    assert_eq!(device.open("\u{fc}ber.bin".to_string(), None).err(), Some(V5Error::InvalidName));
    assert!(!device.is_open());
    assert_eq!(finish(device).requests.len(), 1);
}

#[test]
fn refused_open_leaves_the_session_idle() {
    let mut fake = FakeDevice::brain();
    fake.nack_opcode = Some((0x11, 0xDB));
    let mut device = session(fake);
    assert_eq!(
        device.open("a.bin".to_string(), None).err(),
        Some(V5Error::Nack(VexACKType::NACKFileAlreadyExists))
    );
    assert!(!device.is_open());
    let mut fake = FakeDevice::brain();
    fake.fail_send_at = Some(1);
    let mut device = session(fake);
    assert_eq!(device.open("a.bin".to_string(), None).err(), Some(V5Error::Io));
    assert!(!device.is_open());
}

#[test]
fn raw_reads_and_writes_want_an_open_file() {
    let mut device = session(FakeDevice::brain());
    assert_eq!(device.read_raw(0, 4), Err(V5Error::ProtocolState));
    assert_eq!(device.write_raw(0, vec![1, 2, 3, 4]), Err(V5Error::ProtocolState));
    assert_eq!(device.exit(VexFiletransferFinished::DoNothing), Err(V5Error::ProtocolState));
    assert_eq!(device.read_raw(0, 3), Err(V5Error::ProtocolState));
    assert_eq!(finish(device).requests.len(), 1);
}

#[test]
fn raw_lengths_have_to_be_multiples_of_four() {
    let fake = FakeDevice::brain().with_file("a.bin", 0x1000, contents(64));
    let mut device = session(fake);
    let _handle = device.open("a.bin".to_string(), Some(download_metadata(64, 0x1000))).unwrap();
    for length in [1u16, 2, 3, 5, 511, 0xFFFF] {
        assert_eq!(device.read_raw(0x1000, length), Err(V5Error::LengthModFour));
    }
    for length in [1usize, 2, 3, 5, 511] {
        assert_eq!(device.write_raw(0x1000, vec![0; length]), Err(V5Error::LengthModFour));
    }
    assert_eq!(device.read_raw(0x1000, 8), Ok(contents(64)[..8].to_vec()));
    assert_eq!(device.read_raw(0x1004, 0), Ok(Vec::new()));
    assert_eq!(device.write_raw(0x1000, vec![5, 6, 7, 8]), Ok(()));
    assert_eq!(device.write_raw(0x1000, Vec::new()), Ok(()));
    assert_eq!(device.write_raw(0x1000, vec![0; 0x10000]), Err(V5Error::InvalidPayloadLength));
    let fake = finish(device);
    assert_eq!(fake.opcodes(), vec![0xA4, 0x11, 0x14, 0x14, 0x13, 0x13]);
    assert_eq!(fake.requests[2].1, vec![0x00, 0x10, 0x00, 0x00, 8, 0]);
    assert_eq!(fake.written, vec![(0x1000, vec![5, 6, 7, 8]), (0x1000, vec![])]);
}

#[test]
fn raw_read_strips_the_echoed_address() {
    let fake = FakeDevice::brain().with_file("a.bin", 0x2000, contents(16));
    let mut device = session(fake);
    let _handle = device.open("a.bin".to_string(), Some(download_metadata(16, 0x2000))).unwrap();
    assert_eq!(device.read_raw(0x2004, 4), Ok(contents(16)[4..8].to_vec()));
    assert_eq!(device.read_raw(0x2000, 16), Ok(contents(16)));
}

#[test]
fn raw_read_of_a_short_reply_is_refused() {
    let mut fake = FakeDevice::brain();
    fake.nack_opcode = Some((0x14, 0x76));
    let mut device = session(fake);
    let _handle = device.open("a.bin".to_string(), Some(download_metadata(16, 0))).unwrap();
    assert_eq!(device.read_raw(0, 4), Err(V5Error::InvalidPayloadLength));
}

#[test]
fn read_len_pads_the_request_and_cuts_the_reply() {
    let fake = FakeDevice::brain().with_file("a.bin", 0x3000, contents(600));
    let mut device = session(fake);
    let handle = device.open("a.bin".to_string(), Some(download_metadata(600, 0x3000))).unwrap();
    assert_eq!(handle.read_len(&mut device, 0x3000, 5), Ok(contents(600)[..5].to_vec()));
    assert_eq!(handle.read_len(&mut device, 0x3000 + 512, 88), Ok(contents(600)[512..].to_vec()));
    assert_eq!(handle.read_len(&mut device, 0x3000, 0), Ok(Vec::new()));
    assert_eq!(handle.read_len(&mut device, 0x3000, 257).map(|d| d.len()), Ok(257));
    assert_eq!(handle.read_len(&mut device, 0, 0xFFFD), Err(V5Error::InvalidPayloadLength));
    let fake = finish(device);
    let lengths: Vec<u16> = fake.requests[2..]
        .iter()
        .map(|r| u16::from_le_bytes([r.1[4], r.1[5]]))
        .collect();
    assert_eq!(lengths, vec![8, 88, 0, 260]);
    assert!(lengths.iter().all(|l| l % 4 == 0));
}

#[test]
fn write_some_pads_with_zeros() {
    let mut device = session(FakeDevice::brain());
    let handle = device.open("a.bin".to_string(), Some(upload_metadata(5))).unwrap();
    assert_eq!(handle.write_some(&mut device, 0x03800000, &[1, 2, 3, 4, 5]), Ok(()));
    assert_eq!(handle.write_some(&mut device, 0x03800008, &[9, 9, 9, 9]), Ok(()));
    let fake = finish(device);
    assert_eq!(
        fake.written,
        vec![(0x03800000, vec![1, 2, 3, 4, 5, 0, 0, 0]), (0x03800008, vec![9, 9, 9, 9])]
    );
}

#[test]
fn upload_of_1025_bytes_in_three_requests() {
    let data = contents(1025);
    let mut device = session(FakeDevice::brain());
    let handle = device.open("slot_1.bin".to_string(), Some(upload_metadata(1025))).unwrap();
    assert_eq!(handle.transfer_metadata().write_chunk(), 384);
    let mut progress = Progress::new(Amounts(Vec::new()));
    assert_eq!(handle.write_all_with(&mut device, &data, &mut progress), Ok(1025));
    assert_eq!(progress.into_inner().0, vec![384, 384, 257]);
    let fake = finish(device);
    let offsets: Vec<u32> = fake.written.iter().map(|w| w.0 - 0x03800000).collect();
    let lengths: Vec<usize> = fake.written.iter().map(|w| w.1.len()).collect();
    assert_eq!(offsets, vec![0, 384, 768]);
    assert_eq!(lengths, vec![384, 384, 260]);
    assert_eq!(fake.written[0].1, data[..384].to_vec());
    assert_eq!(fake.written[1].1, data[384..768].to_vec());
    assert_eq!(fake.written[2].1[..257].to_vec(), data[768..].to_vec());
    assert_eq!(fake.written[2].1[257..].to_vec(), vec![0, 0, 0]);
    assert_eq!(fake.opcodes(), vec![0xA4, 0x11, 0x13, 0x13, 0x13]);
}

#[test]
fn download_of_600_bytes_in_two_requests() {
    let fake = FakeDevice::brain().with_file("log.txt", 0x03800400, contents(600));
    let mut device = session(fake);
    let handle = device
        .open("log.txt".to_string(), Some(download_metadata(600, 0x03800400)))
        .unwrap();
    let mut progress = Progress::new(Amounts(Vec::new()));
    assert_eq!(handle.read_all_with(&mut device, &mut progress), Ok(contents(600)));
    assert_eq!(progress.into_inner().0, vec![512, 88]);
    let fake = finish(device);
    let reads: Vec<(u32, u16)> = fake.requests[2..]
        .iter()
        .map(|r| {
            (
                u32::from_le_bytes([r.1[0], r.1[1], r.1[2], r.1[3]]),
                u16::from_le_bytes([r.1[4], r.1[5]]),
            )
        })
        .collect();
    assert_eq!(reads, vec![(0x03800400, 512), (0x03800400 + 512, 88)]);
    assert_eq!(READ_CHUNK, 512);
}

fn chunk_lengths(size: usize, max_packet_size: u16) -> Vec<usize> {
    let mut fake = FakeDevice::brain();
    fake.max_packet_size = max_packet_size;
    let mut device = session(fake);
    let handle = device.open("a.bin".to_string(), Some(upload_metadata(size as u32))).unwrap();
    let written = handle.write_all(&mut device, contents(size));
    assert_eq!(written, Ok(size));
    let fake = finish(device);
    let total: Vec<u8> = fake
        .written
        .iter()
        .enumerate()
        .flat_map(|(k, w)| {
            assert_eq!(w.1.len() % 4, 0);
            let chunk = (max_packet_size / 2 + max_packet_size / 4) as usize;
            assert_eq!(w.0 as usize, 0x03800000 + k * chunk);
            let len = std::cmp::min(chunk, size - k * chunk);
            w.1[..len].to_vec()
        })
        .collect();
    assert_eq!(total, contents(size));
    fake.written.iter().map(|w| w.1.len()).collect()
}

#[test]
fn uploads_issue_size_over_chunk_requests_rounded_up() {
    assert_eq!(chunk_lengths(0, 512), Vec::<usize>::new());
    assert_eq!(chunk_lengths(1, 512), vec![4]);
    assert_eq!(chunk_lengths(383, 512), vec![384]);
    assert_eq!(chunk_lengths(384, 512), vec![384]);
    assert_eq!(chunk_lengths(385, 512), vec![384, 4]);
    assert_eq!(chunk_lengths(768, 512), vec![384, 384]);
    assert_eq!(chunk_lengths(10, 7), vec![4, 4, 4]);
    assert_eq!(chunk_lengths(9, 4), vec![4, 4, 4]);
    assert_eq!(chunk_lengths(100_000, 0xFFFF), vec![49152, 49152, 1700]);
}

#[test]
fn downloads_issue_size_over_512_requests_rounded_up() {
    for size in [0usize, 1, 3, 4, 511, 512, 513, 1024, 1500] {
        let fake = FakeDevice::brain().with_file("a.bin", 0x10, contents(size));
        let mut device = session(fake);
        let handle = device.open("a.bin".to_string(), Some(download_metadata(size as u32, 0x10))).unwrap();
        assert_eq!(handle.transfer_metadata().file_size as usize, size);
        assert_eq!(handle.read_all(&mut device), Ok(contents(size)));
        let fake = finish(device);
        assert_eq!(fake.requests.len() - 2, (size + 511) / 512);
        for (k, request) in fake.requests[2..].iter().enumerate() {
            let addr = u32::from_le_bytes([request.1[0], request.1[1], request.1[2], request.1[3]]);
            let len = u16::from_le_bytes([request.1[4], request.1[5]]) as usize;
            assert_eq!(addr as usize, 0x10 + 512 * k);
            assert_eq!(len % 4, 0);
            let wanted = std::cmp::min(512, size - 512 * k);
            assert_eq!(len, (wanted + 3) / 4 * 4);
        }
    }
}

#[test]
fn upload_writes_no_more_than_the_device_expects() {
    let mut device = session(FakeDevice::brain());
    let handle = device.open("a.bin".to_string(), Some(upload_metadata(10))).unwrap();
    assert_eq!(handle.write_all(&mut device, contents(400)), Ok(10));
    let fake = finish(device);
    assert_eq!(fake.written.len(), 1);
    assert_eq!(fake.written[0].1.len(), 12);
    assert_eq!(fake.written[0].1[..10].to_vec(), contents(10));
}

#[test]
fn upload_stops_at_the_first_failure() {
    let mut fake = FakeDevice::brain();
    fake.nack_at = Some((3, 0xD2));
    let mut device = session(fake);
    let handle = device.open("a.bin".to_string(), Some(upload_metadata(1025))).unwrap();
    let mut progress = Progress::new(Amounts(Vec::new()));
    assert_eq!(
        handle.write_all_with(&mut device, &contents(1025), &mut progress),
        Err(V5Error::Nack(VexACKType::NACKProgramCrcFailed))
    );
    assert_eq!(progress.into_inner().0, vec![384]);
    assert!(device.is_open());
    let fake = finish(device);
    assert_eq!(fake.opcodes(), vec![0xA4, 0x11, 0x13, 0x13]);
}

#[test]
fn download_stops_at_the_first_failure() {
    let mut fake = FakeDevice::brain().with_file("a.bin", 0, contents(1500));
    fake.fail_send_at = Some(3);
    let mut device = session(fake);
    let handle = device.open("a.bin".to_string(), Some(download_metadata(1500, 0))).unwrap();
    let mut progress = Progress::new(Amounts(Vec::new()));
    assert_eq!(handle.read_all_with(&mut device, &mut progress), Err(V5Error::Io));
    assert_eq!(progress.into_inner().0, vec![512]);
    assert_eq!(finish(device).opcodes(), vec![0xA4, 0x11, 0x14, 0x14]);
}

#[test]
fn transfers_that_cannot_start_send_nothing() {
    let mut fake = FakeDevice::brain();
    fake.max_packet_size = 1;
    let mut device = session(fake);
    let handle = device.open("a.bin".to_string(), Some(upload_metadata(8))).unwrap();
    assert_eq!(handle.write_all(&mut device, contents(8)), Err(V5Error::InvalidPayloadLength));
    assert_eq!(handle.write_all(&mut device, Vec::new()), Ok(0));
    assert_eq!(finish(device).requests.len(), 2);

    let mut device = session(FakeDevice::brain());
    let mut metadata = upload_metadata(16);
    metadata.addr = 0xFFFF_FFF8;
    let handle = device.open("a.bin".to_string(), Some(metadata)).unwrap();
    assert_eq!(handle.write_all(&mut device, contents(16)), Err(V5Error::AddressOverflow));
    assert_eq!(handle.write_all(&mut device, contents(8)), Ok(8));
    assert_eq!(handle.read_all(&mut device), Err(V5Error::AddressOverflow));
    let fake = finish(device);
    assert_eq!(fake.written.len(), 1);
    assert_eq!(fake.written[0].0, 0xFFFF_FFF8);
}

#[test]
fn closed_handle_moves_nothing() {
    let mut device = session(FakeDevice::brain());
    let mut handle = device.open("a.bin".to_string(), Some(upload_metadata(8))).unwrap();
    handle.close(&mut device, VexFiletransferFinished::RunProgram).unwrap();
    assert_eq!(handle.write_all(&mut device, contents(8)), Err(V5Error::ProtocolState));
    assert_eq!(handle.read_all(&mut device), Err(V5Error::ProtocolState));
    assert_eq!(handle.read_len(&mut device, 0, 4), Err(V5Error::ProtocolState));
    assert_eq!(handle.write_some(&mut device, 0, &[1]), Err(V5Error::ProtocolState));
    assert_eq!(finish(device).opcodes(), vec![0xA4, 0x11, 0x12]);
}

#[test]
fn close_sends_the_disposition_once() {
    let mut device = session(FakeDevice::brain());
    let mut handle = device.open("a.bin".to_string(), None).unwrap();
    assert_eq!(handle.close(&mut device, VexFiletransferFinished::ShowRunScreen), Ok(Vec::new()));
    assert!(handle.is_closed());
    assert!(!device.is_open());
    assert_eq!(handle.close(&mut device, VexFiletransferFinished::RunProgram), Ok(Vec::new()));
    assert_eq!(handle.close(&mut device, VexFiletransferFinished::DoNothing), Ok(Vec::new()));
    handle.release(&mut device);
    let fake = finish(device);
    assert_eq!(fake.exits, vec![0b11]);
    assert_eq!(fake.opcodes(), vec![0xA4, 0x11, 0x12]);
}

#[test]
fn released_handle_tells_the_brain_to_do_nothing() {
    let mut device = session(FakeDevice::brain());
    let handle = device.open("a.bin".to_string(), None).unwrap();
    handle.release(&mut device);
    assert!(!device.is_open());
    let fake = finish(device);
    assert_eq!(fake.exits, vec![0b00]);
    assert_eq!(fake.requests[2], (0x12, vec![0]));
    assert_eq!(fake.opcodes(), vec![0xA4, 0x11, 0x12]);
}

#[test]
fn failed_close_still_closes() {
    let mut fake = FakeDevice::brain();
    fake.nack_opcode = Some((0x12, 0xD4));
    let mut device = session(fake);
    let mut handle = device.open("a.bin".to_string(), None).unwrap();
    assert_eq!(
        handle.close(&mut device, VexFiletransferFinished::DoNothing),
        Err(V5Error::Nack(VexACKType::NACKUninitializedTransfer))
    );
    assert!(handle.is_closed());
    assert!(!device.is_open());
    assert_eq!(handle.close(&mut device, VexFiletransferFinished::DoNothing), Ok(Vec::new()));
    assert_eq!(finish(device).opcodes(), vec![0xA4, 0x11, 0x12]);
}

#[test]
fn linked_filename_is_sent_on_request() {
    let mut device = session(FakeDevice::brain());
    assert!(!device.links_names());
    device.set_link_names(true);
    assert!(device.links_names());
    let handle = device.open("a.bin".to_string(), Some(upload_metadata(4))).unwrap();
    assert_eq!(device.link_filename(&handle), Ok(()));
    let fake = finish(device);
    assert_eq!(fake.opcodes(), vec![0xA4, 0x11, 0x15]);
    let mut expected = vec![1u8, 1];
    expected.extend(name_field_of("a.bin"));
    assert_eq!(fake.requests[2].1, expected);
}

#[test]
fn deadline_can_be_set() {
    let mut device = session(FakeDevice::brain());
    device.set_timeout(Some(15_000));
    assert_eq!(device.timeout(), Some(15_000));
    let mut handle = device.open("a.bin".to_string(), None).unwrap();
    device.set_timeout(None);
    handle.close(&mut device, VexFiletransferFinished::DoNothing).unwrap();
    assert_eq!(handle.timeout(), Some(15_000));
    assert_eq!(finish(device).timeouts, vec![100, 15_000, 100]);
}

#[test]
fn failures_that_end_a_session() {
    assert!(V5Error::CrcMismatch.is_fatal());
    assert!(V5Error::UnknownAck(0).is_fatal());
    assert!(V5Error::ProtocolState.is_fatal());
    for e in [
        V5Error::Io,
        V5Error::HeaderSyncTimeout,
        V5Error::UnexpectedOpcode,
        V5Error::Nack(VexACKType::NACKCrcError),
        V5Error::InvalidName,
        V5Error::LengthModFour,
        V5Error::NoDevices,
        V5Error::Ambiguous,
        V5Error::UserAborted,
        V5Error::InvalidPayloadLength,
        V5Error::FileNotFound,
        V5Error::InvalidProduct(1),
        V5Error::AddressOverflow,
        V5Error::InvalidTime,
    ] {
        assert!(!e.is_fatal());
    }
}

#[test]
fn progress_without_a_sink() {
    let mut progress = Progress::new(NoProgress);
    progress.report(5);
    let _sink: NoProgress = progress.into_inner();
    let handle: Option<V5FileHandle> = None;
    assert!(handle.is_none());
    assert_eq!(VexACKType::ACK.code(), 0x76);
    assert_eq!(crc16_checksum(&[]), 0);
}
