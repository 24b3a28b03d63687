use cargo_v5::checksum::{crc16_checksum, crc32_checksum};
use cargo_v5::error::V5Error;
use cargo_v5::v5::device::VexV5Device;
use cargo_v5::v5::protocol::vex::{
    check_ack, decode_extended_frame, decode_extended_reply, decode_simple_reply, FrameScan,
    ReadStep, ResponseCheckFlags, SerialLink, DEFAULT_TIMEOUT_MS,
};
use cargo_v5::v5::protocol::{
    VexACKType, VexDeviceCommand, VexDeviceType, VexFiletransferFinished, VexProtocolWrapper,
};

/// A stand-in for a V5 device on the other end of the link: it reads
/// each request as a device would and queues the reply.
struct FakeDevice {
    /// `None` for a brain, the flags byte for a controller.
    controller: Option<u8>,
    max_packet_size: u16,
    /// Name field, address and contents of each file on the device.
    files: Vec<(Vec<u8>, u32, Vec<u8>)>,
    /// Every request in order: the opcode (of the extended packet, or
    /// of the simple one) and the payload.
    requests: Vec<(u8, Vec<u8>)>,
    /// The bytes of every write, as handed to the link.
    writes: Vec<Vec<u8>>,
    /// The deadline of every read.
    timeouts: Vec<u64>,
    replies: Vec<Result<Vec<u8>, V5Error>>,
    /// Refuse the request with this index with this acknowledgement.
    nack_at: Option<(usize, u8)>,
    /// Fail the write of the request with this index.
    fail_send_at: Option<usize>,
    /// Answer every request of this opcode with this acknowledgement.
    nack_opcode: Option<(u8, u8)>,
    written: Vec<(u32, Vec<u8>)>,
    channels: Vec<u8>,
    exits: Vec<u8>,
    open_size: u32,
}

fn le32(x: u32) -> Vec<u8> {
    x.to_le_bytes().to_vec()
}

fn name_field_of(name: &str) -> Vec<u8> {
    let mut field = vec![0u8; 24];
    for (i, b) in name.bytes().take(23).enumerate() {
        field[i] = b;
    }
    field
}

/// An extended reply: header, opcode, two length bytes (high first),
/// acknowledgement, payload, and the CRC-16 that makes the whole
/// frame sum to zero.
fn extended_reply(ack: u8, payload: &[u8]) -> Vec<u8> {
    let len = 1 + payload.len() + 2;
    let mut frame = vec![0xAA, 0x55, 0x56, (len >> 8) as u8, (len & 0xff) as u8, ack];
    frame.extend_from_slice(payload);
    let crc = crc16_checksum(&frame);
    frame.push((crc >> 8) as u8);
    frame.push((crc & 0xff) as u8);
    frame
}

fn simple_reply(opcode: u8, payload: &[u8]) -> Vec<u8> {
    let mut frame = vec![0xAA, 0x55, opcode, payload.len() as u8];
    frame.extend_from_slice(payload);
    frame
}

impl FakeDevice {
    fn brain() -> FakeDevice {
        FakeDevice {
            controller: None,
            max_packet_size: 512,
            files: Vec::new(),
            requests: Vec::new(),
            writes: Vec::new(),
            timeouts: Vec::new(),
            replies: Vec::new(),
            nack_at: None,
            fail_send_at: None,
            nack_opcode: None,
            written: Vec::new(),
            channels: Vec::new(),
            exits: Vec::new(),
            open_size: 0,
        }
    }

    fn controller(flags: u8) -> FakeDevice {
        let mut device = FakeDevice::brain();
        device.controller = Some(flags);
        device
    }

    fn with_file(mut self, name: &str, addr: u32, contents: Vec<u8>) -> FakeDevice {
        self.files.push((name_field_of(name), addr, contents));
        self
    }

    fn opcodes(&self) -> Vec<u8> {
        self.requests.iter().map(|r| r.0).collect()
    }

    fn answer(&mut self, opcode: u8, payload: &[u8]) -> Vec<u8> {
        match opcode {
            0x10 => {
                self.channels.push(payload[0]);
                extended_reply(0x76, &[])
            }
            0x19 => {
                let name = payload[2..26].to_vec();
                match self.files.iter().position(|f| f.0 == name) {
                    None => extended_reply(0xD9, &[]),
                    Some(i) => {
                        let file = &self.files[i];
                        let mut body = vec![i as u8];
                        body.extend(le32(file.2.len() as u32));
                        body.extend(le32(file.1));
                        body.extend(le32(crc32_checksum(&file.2)));
                        body.extend_from_slice(b"bin\0");
                        body.extend(le32(7));
                        body.extend(le32(0x0100_0000));
                        body.extend_from_slice(&file.0);
                        extended_reply(0x76, &body)
                    }
                }
            }
            0x11 => {
                let length = u32::from_le_bytes([payload[4], payload[5], payload[6], payload[7]]);
                let crc = u32::from_le_bytes([payload[12], payload[13], payload[14], payload[15]]);
                let size = if payload[0] == 2 {
                    let name = payload[28..52].to_vec();
                    match self.files.iter().find(|f| f.0 == name) {
                        Some(file) => file.2.len() as u32,
                        None => length,
                    }
                } else {
                    length
                };
                self.open_size = size;
                let mut body = self.max_packet_size.to_le_bytes().to_vec();
                body.extend(le32(size));
                body.extend(le32(crc));
                extended_reply(0x76, &body)
            }
            0x13 => {
                let addr = u32::from_le_bytes([payload[0], payload[1], payload[2], payload[3]]);
                self.written.push((addr, payload[4..].to_vec()));
                extended_reply(0x76, &[])
            }
            0x14 => {
                let addr = u32::from_le_bytes([payload[0], payload[1], payload[2], payload[3]]);
                let len = u16::from_le_bytes([payload[4], payload[5]]) as usize;
                let mut body = le32(addr);
                for k in 0..len {
                    let at = addr as usize + k;
                    let byte = self
                        .files
                        .iter()
                        .find(|f| at >= f.1 as usize && at < f.1 as usize + f.2.len())
                        .map(|f| f.2[at - f.1 as usize])
                        .unwrap_or(0);
                    body.push(byte);
                }
                extended_reply(0x76, &body)
            }
            0x12 => {
                self.exits.push(payload[0]);
                extended_reply(0x76, &[])
            }
            _ => extended_reply(0x76, &[]),
        }
    }
}

impl SerialLink for FakeDevice {
    fn send(&mut self, bytes: &[u8]) -> bool {
        let index = self.requests.len();
        self.writes.push(bytes.to_vec());
        let (opcode, payload) = match decode_extended_frame(bytes) {
            Ok((command, payload)) => (command.code(), payload),
            Err(_) => (bytes[4], bytes[5..].to_vec()),
        };
        self.requests.push((opcode, payload.clone()));
        if self.fail_send_at == Some(index) {
            return false;
        }
        let reply = if opcode == 0xA4 {
            let (product, flags) = match self.controller {
                None => (0x10, 0),
                Some(flags) => (0x11, flags),
            };
            simple_reply(0xA4, &[1, 0, 13, 0, 0, product, flags, 0])
        } else if let Some((at, ack)) = self.nack_at.filter(|n| n.0 == index) {
            let _ = at;
            extended_reply(ack, &[])
        } else if let Some((_, ack)) = self.nack_opcode.filter(|n| n.0 == opcode) {
            extended_reply(ack, &[])
        } else {
            self.answer(opcode, &payload)
        };
        self.replies.push(Ok(reply));
        true
    }

    fn read_frame(&mut self, timeout_ms: u64) -> Result<Vec<u8>, V5Error> {
        self.timeouts.push(timeout_ms);
        if self.replies.is_empty() {
            Err(V5Error::HeaderSyncTimeout)
        } else {
            self.replies.remove(0)
        }
    }
}

fn session(fake: FakeDevice) -> VexV5Device<FakeDevice> {
    VexV5Device::new(VexProtocolWrapper::new(VexDeviceType::System, fake))
}

fn finish(device: VexV5Device<FakeDevice>) -> FakeDevice {
    device.into_inner().into_inner()
}

const ALL: ResponseCheckFlags = ResponseCheckFlags { ack: true, crc: true };
const CRC_ONLY: ResponseCheckFlags = ResponseCheckFlags { ack: false, crc: true };
const NONE: ResponseCheckFlags = ResponseCheckFlags { ack: false, crc: false };

fn transport() -> VexProtocolWrapper<FakeDevice> {
    VexProtocolWrapper::new(VexDeviceType::System, FakeDevice::brain())
}

fn payload(len: usize) -> Vec<u8> {
    (0..len).map(|i| (i % 251) as u8).collect()
}

#[test]
fn extended_request_without_payload() {
    let mut wrapper = transport();
    let n = wrapper.send_extended(VexDeviceCommand::GetSystemVersion, Vec::new());
    assert_eq!(n, Ok(9));
    let fake = wrapper.into_inner();
    assert_eq!(fake.writes.len(), 1);
    let frame = &fake.writes[0];
    assert_eq!(frame.len(), 9);
    assert_eq!(&frame[..7], &[0xC9, 0x36, 0xB8, 0x47, 0x56, 0xA4, 0x00]);
    let crc = crc16_checksum(&frame[..7]);
    assert_eq!(crc, 0xd1c2);
    assert_eq!(frame[7], 0xd1);
    assert_eq!(frame[8], 0xc2);
    assert_eq!(crc16_checksum(frame), 0);
}

#[test]
fn simple_request_is_header_and_payload() {
    let mut wrapper = transport();
    let n = wrapper.send_simple(VexDeviceCommand::ExecuteFile, vec![1, 2, 3]);
    assert_eq!(n, Ok(8));
    let fake = wrapper.into_inner();
    assert_eq!(fake.writes, vec![vec![0xC9, 0x36, 0xB8, 0x47, 0x18, 1, 2, 3]]);
}

#[test]
fn packet_header_carries_the_opcode() {
    let wrapper = transport();
    assert_eq!(
        wrapper.create_packet(VexDeviceCommand::Extended),
        vec![0xC9, 0x36, 0xB8, 0x47, 0x56]
    );
    assert_eq!(
        wrapper.create_packet(VexDeviceCommand::GetSystemVersion),
        vec![0xC9, 0x36, 0xB8, 0x47, 0xA4]
    );
    assert_eq!(wrapper.device_type(), VexDeviceType::System);
}

#[test]
fn failed_write_is_an_io_failure() {
    let mut fake = FakeDevice::brain();
    fake.fail_send_at = Some(0);
    let mut wrapper = VexProtocolWrapper::new(VexDeviceType::System, fake);
    assert_eq!(wrapper.send_simple(VexDeviceCommand::GetSystemVersion, Vec::new()), Err(V5Error::Io));
    assert_eq!(wrapper.send_extended(VexDeviceCommand::ExitFile, vec![0]), Ok(10));
}

#[test]
fn length_field_is_one_byte_below_0x80() {
    let wrapper = transport();
    for len in [0usize, 1, 0x7F] {
        let packet = wrapper.create_extended_packet(VexDeviceCommand::WriteFile, payload(len)).unwrap();
        assert_eq!(packet.len(), 1 + 1 + len + 2);
        assert_eq!(packet[0], 0x13);
        assert_eq!(packet[1], len as u8);
        assert_eq!(&packet[2..2 + len], &payload(len)[..]);
    }
}

#[test]
fn length_field_is_two_bytes_low_first_from_0x80() {
    let wrapper = transport();
    for len in [0x80usize, 0x81, 0x100, 0x1234, 0xFFFF] {
        let packet = wrapper.create_extended_packet(VexDeviceCommand::WriteFile, payload(len)).unwrap();
        assert_eq!(packet.len(), 1 + 2 + len + 2);
        assert_eq!(packet[1], (len & 0xff) as u8);
        assert_eq!(packet[2], (len >> 8) as u8);
        assert_eq!(&packet[3..3 + len], &payload(len)[..]);
    }
    let packet = wrapper.create_extended_packet(VexDeviceCommand::WriteFile, payload(0x80)).unwrap();
    assert_eq!(&packet[..3], &[0x13, 0x80, 0x00]);
}

#[test]
fn extended_packet_ends_in_the_checksum_of_the_whole_frame() {
    let wrapper = transport();
    let packet = wrapper.create_extended_packet(VexDeviceCommand::ReadFile, vec![9, 8, 7]).unwrap();
    let mut frame = vec![0xC9, 0x36, 0xB8, 0x47, 0x56];
    frame.extend_from_slice(&packet[..packet.len() - 2]);
    let crc = crc16_checksum(&frame);
    assert_eq!(packet[packet.len() - 2], (crc >> 8) as u8);
    assert_eq!(packet[packet.len() - 1], (crc & 0xff) as u8);
}

#[test]
fn payload_above_65535_bytes_is_refused() {
    let mut wrapper = transport();
    assert_eq!(
        wrapper.create_extended_packet(VexDeviceCommand::WriteFile, payload(0x10000)),
        Err(V5Error::InvalidPayloadLength)
    );
    assert_eq!(
        wrapper.send_extended(VexDeviceCommand::WriteFile, payload(0x10000)),
        Err(V5Error::InvalidPayloadLength)
    );
    assert!(wrapper.send_extended(VexDeviceCommand::ExecuteFile, payload(0xFFFF)).is_ok());
    let fake = wrapper.into_inner();
    assert_eq!(fake.writes.len(), 1);
    assert_eq!(fake.writes[0].len(), 5 + 1 + 2 + 0xFFFF + 2);
}

#[test]
fn extended_request_reads_back_for_every_length_form() {
    let mut wrapper = transport();
    for len in [0usize, 1, 0x7F, 0x80, 0x81, 0x100, 0xFFFF] {
        wrapper.send_extended(VexDeviceCommand::ExecuteFile, payload(len)).unwrap();
    }
    let fake = wrapper.into_inner();
    for (frame, len) in fake.writes.iter().zip([0usize, 1, 0x7F, 0x80, 0x81, 0x100, 0xFFFF]) {
        assert_eq!(crc16_checksum(frame), 0);
        assert_eq!(decode_extended_frame(frame), Ok((VexDeviceCommand::ExecuteFile, payload(len))));
    }
}

#[test]
fn damaged_request_does_not_read_back() {
    let mut wrapper = transport();
    wrapper.send_extended(VexDeviceCommand::OpenFile, payload(20)).unwrap();
    let frame = wrapper.into_inner().writes[0].clone();
    let mut tampered = frame.clone();
    tampered[10] ^= 1;
    assert_eq!(decode_extended_frame(&tampered), Err(V5Error::CrcMismatch));
    let mut other_header = frame.clone();
    other_header[0] = 0xAA;
    assert_eq!(decode_extended_frame(&other_header), Err(V5Error::UnexpectedOpcode));
    assert_eq!(decode_extended_frame(&frame[..8]), Err(V5Error::InvalidPayloadLength));
    let mut longer = frame[..frame.len() - 2].to_vec();
    longer.push(0);
    let crc = crc16_checksum(&longer);
    longer.push((crc >> 8) as u8);
    longer.push((crc & 0xff) as u8);
    assert_eq!(decode_extended_frame(&longer), Err(V5Error::InvalidPayloadLength));
    let mut unknown = vec![0xC9, 0x36, 0xB8, 0x47, 0x56, 0x77, 0x00];
    let crc = crc16_checksum(&unknown);
    unknown.push((crc >> 8) as u8);
    unknown.push((crc & 0xff) as u8);
    assert_eq!(decode_extended_frame(&unknown), Err(V5Error::UnexpectedOpcode));
}

#[test]
fn extended_reply_decodes_to_its_payload() {
    let frame = extended_reply(0x76, &[0xAA, 0xBB, 0xCC, 0xDD]);
    assert_eq!(&frame[..10], &[0xAA, 0x55, 0x56, 0x00, 0x07, 0x76, 0xAA, 0xBB, 0xCC, 0xDD]);
    assert_eq!(crc16_checksum(&frame), 0);
    let decoded = decode_extended_reply(&frame, ALL).unwrap();
    assert_eq!(decoded.0, VexDeviceCommand::Extended);
    assert_eq!(decoded.1, vec![0xAA, 0xBB, 0xCC, 0xDD]);
    assert_eq!(decoded.2, frame);
}

#[test]
fn reply_with_a_single_length_byte_is_not_whole() {
    let mut frame = vec![0xAA, 0x55, 0x56, 0x05, 0x76, 0xAA, 0xBB, 0xCC, 0xDD];
    let crc = crc16_checksum(&frame);
    frame.push((crc >> 8) as u8);
    frame.push((crc & 0xff) as u8);
    assert_eq!(FrameScan::of(&frame), FrameScan::Partial { start: 0, missing: 0x0576 + 5 - 11 });
    assert_eq!(decode_extended_reply(&frame, ALL), Err(V5Error::Io));
}

#[test]
fn tampered_extended_reply_is_a_crc_mismatch() {
    let mut frame = extended_reply(0x76, &[0xAA, 0xBB, 0xCC, 0xDD]);
    frame[7] = 0xBC;
    assert_eq!(decode_extended_reply(&frame, ALL), Err(V5Error::CrcMismatch));
    assert_eq!(decode_extended_reply(&frame, CRC_ONLY), Err(V5Error::CrcMismatch));
    let unchecked = decode_extended_reply(&frame, NONE).unwrap();
    assert_eq!(unchecked.1, vec![0xAA, 0xBC, 0xCC, 0xDD]);
}

#[test]
fn acknowledgement_bytes() {
    assert_eq!(check_ack(0x76), Ok(()));
    assert_eq!(check_ack(0xCE), Err(V5Error::Nack(VexACKType::NACKCrcError)));
    assert_eq!(check_ack(0x00), Err(V5Error::UnknownAck(0)));
    assert_eq!(check_ack(0xCF), Err(V5Error::Nack(VexACKType::NACKUnspecified)));
    assert_eq!(check_ack(0xCD), Err(V5Error::UnknownAck(0xCD)));
    for byte in 0xCEu8..=0xDB {
        assert!(matches!(check_ack(byte), Err(V5Error::Nack(kind)) if kind.code() == byte));
    }
    assert_eq!(check_ack(0xDB), Err(V5Error::Nack(VexACKType::NACKFileAlreadyExists)));
    assert_eq!(check_ack(0xDC), Err(V5Error::UnknownAck(0xDC)));
    assert_eq!(check_ack(0xFF), Err(V5Error::UnknownAck(0xFF)));
}

#[test]
fn refusal_in_an_extended_reply() {
    let nack = extended_reply(0xCE, &[]);
    assert_eq!(decode_extended_reply(&nack, ALL), Err(V5Error::Nack(VexACKType::NACKCrcError)));
    let unknown = extended_reply(0x00, &[]);
    assert_eq!(decode_extended_reply(&unknown, ALL), Err(V5Error::UnknownAck(0)));
    let unchecked = decode_extended_reply(&nack, CRC_ONLY).unwrap();
    assert_eq!(unchecked.1, Vec::<u8>::new());
}

#[test]
fn every_acknowledgement_code_round_trips() {
    let codes: [(u8, VexACKType); 15] = [
        (0x76, VexACKType::ACK),
        (0xCE, VexACKType::NACKCrcError),
        (0xCF, VexACKType::NACKUnspecified),
        (0xD0, VexACKType::NACKPayloadShort),
        (0xD1, VexACKType::NACKTransferSizeTooLarge),
        (0xD2, VexACKType::NACKProgramCrcFailed),
        (0xD3, VexACKType::NACKProgramFileError),
        (0xD4, VexACKType::NACKUninitializedTransfer),
        (0xD5, VexACKType::NACKInitializationInvalid),
        (0xD6, VexACKType::NACKLengthModFourNzero),
        (0xD7, VexACKType::NACKAddrNoMatch),
        (0xD8, VexACKType::NACKDownloadLengthNoMatch),
        (0xD9, VexACKType::NACKDirectoryNoExist),
        (0xDA, VexACKType::NACKNoFileRoom),
        (0xDB, VexACKType::NACKFileAlreadyExists),
    ];
    for (byte, ack) in codes {
        assert_eq!(ack.code(), byte);
        assert_eq!(VexACKType::from_u8(byte), Some(ack));
    }
    let known = (0u16..256).filter(|b| VexACKType::from_u8(*b as u8).is_some()).count();
    assert_eq!(known, 15);
}

#[test]
fn every_opcode_round_trips() {
    let codes: [(u8, VexDeviceCommand); 10] = [
        (0x10, VexDeviceCommand::SwitchChannel),
        (0x11, VexDeviceCommand::OpenFile),
        (0x12, VexDeviceCommand::ExitFile),
        (0x13, VexDeviceCommand::WriteFile),
        (0x14, VexDeviceCommand::ReadFile),
        (0x15, VexDeviceCommand::SetLinkedFilename),
        (0x18, VexDeviceCommand::ExecuteFile),
        (0x19, VexDeviceCommand::GetMetadataByFilename),
        (0x56, VexDeviceCommand::Extended),
        (0xA4, VexDeviceCommand::GetSystemVersion),
    ];
    for (byte, command) in codes {
        assert_eq!(command.code(), byte);
        assert_eq!(VexDeviceCommand::from_u8(byte), Some(command));
    }
    let known = (0u16..256).filter(|b| VexDeviceCommand::from_u8(*b as u8).is_some()).count();
    assert_eq!(known, 10);
}

#[test]
fn dispositions_have_their_codes() {
    assert_eq!(VexFiletransferFinished::DoNothing.code(), 0b00);
    assert_eq!(VexFiletransferFinished::RunProgram.code(), 0b01);
    assert_eq!(VexFiletransferFinished::ShowRunScreen.code(), 0b11);
    assert_eq!(VexFiletransferFinished::default(), VexFiletransferFinished::DoNothing);
}

#[test]
fn simple_reply_decodes_to_opcode_payload_and_raw() {
    let frame = simple_reply(0xA4, &[1, 2, 3]);
    assert_eq!(
        decode_simple_reply(&frame),
        Ok((VexDeviceCommand::GetSystemVersion, vec![1, 2, 3], frame.clone()))
    );
    let empty = simple_reply(0x18, &[]);
    assert_eq!(decode_simple_reply(&empty), Ok((VexDeviceCommand::ExecuteFile, vec![], empty.clone())));
}

#[test]
fn bytes_behind_a_reply_are_left_alone() {
    let mut frame = simple_reply(0xA4, &[1, 2, 3]);
    let raw = frame.clone();
    frame.extend_from_slice(&[0xAA, 0x55, 9, 9]);
    assert_eq!(FrameScan::of(&frame), FrameScan::Complete { start: 0, end: 7 });
    assert_eq!(decode_simple_reply(&frame), Ok((VexDeviceCommand::GetSystemVersion, vec![1, 2, 3], raw)));
}

#[test]
fn reply_with_an_unknown_opcode() {
    let frame = simple_reply(0x77, &[1]);
    assert_eq!(decode_simple_reply(&frame), Err(V5Error::UnexpectedOpcode));
}

#[test]
fn reply_that_is_not_whole_is_an_io_failure() {
    let frame = extended_reply(0x76, &[1, 2, 3, 4]);
    for cut in 0..frame.len() {
        assert_eq!(decode_simple_reply(&frame[..cut]), Err(V5Error::Io));
        assert_eq!(decode_extended_reply(&frame[..cut], ALL), Err(V5Error::Io));
    }
    assert_eq!(decode_simple_reply(&[1, 2, 3, 4, 5, 6, 7, 8]), Err(V5Error::Io));
}

#[test]
fn simple_reply_taken_as_extended_is_unexpected() {
    let frame = simple_reply(0xA4, &[1, 2, 3]);
    assert_eq!(decode_extended_reply(&frame, NONE), Err(V5Error::UnexpectedOpcode));
    assert_ne!(crc16_checksum(&frame), 0);
    assert_eq!(decode_extended_reply(&frame, ALL), Err(V5Error::UnexpectedOpcode));
    assert_eq!(decode_extended_reply(&frame, CRC_ONLY), Err(V5Error::UnexpectedOpcode));
    let other = simple_reply(0x18, &[]);
    assert_eq!(decode_extended_reply(&other, ALL), Err(V5Error::UnexpectedOpcode));
}

#[test]
fn extended_reply_too_short_for_acknowledgement_and_checksum() {
    let short = vec![0xAA, 0x55, 0x56, 0x00, 0x02, 0x76, 0x00];
    assert_eq!(decode_extended_reply(&short, NONE), Err(V5Error::InvalidPayloadLength));
    let mut with_crc = vec![0xAA, 0x55, 0x56, 0x00, 0x02];
    let crc = crc16_checksum(&with_crc);
    with_crc.push((crc >> 8) as u8);
    with_crc.push((crc & 0xff) as u8);
    assert_eq!(crc16_checksum(&with_crc), 0);
    assert_eq!(decode_extended_reply(&with_crc, ALL), Err(V5Error::InvalidPayloadLength));
}

#[test]
fn bytes_before_the_header_are_skipped() {
    let frame = extended_reply(0x76, &[0xAA, 0xBB, 0xCC, 0xDD]);
    let plain = decode_extended_reply(&frame, ALL);
    let prefixes: [&[u8]; 7] = [
        &[],
        &[0x00],
        &[0xAA],
        &[0x55],
        &[0x55, 0xAA],
        &[0xAA, 0xAA, 0xAA],
        &[0x55, 0x55, 0x01, 0xAA, 0x56, 0xAA],
    ];
    for prefix in prefixes {
        let mut stream = prefix.to_vec();
        stream.extend_from_slice(&frame);
        assert_eq!(decode_extended_reply(&stream, ALL), plain);
        assert_eq!(decode_simple_reply(&stream), decode_simple_reply(&frame));
        assert_eq!(
            FrameScan::of(&stream),
            FrameScan::Complete { start: prefix.len(), end: prefix.len() + frame.len() }
        );
    }
}

#[test]
fn scan_says_how_many_bytes_are_wanted() {
    assert_eq!(FrameScan::of(&[]), FrameScan::Syncing);
    assert_eq!(FrameScan::of(&[0xAA]), FrameScan::Syncing);
    assert_eq!(FrameScan::of(&[0x01, 0xAA, 0x54]), FrameScan::Syncing);
    assert_eq!(FrameScan::of(&[0xAA, 0x55]), FrameScan::Partial { start: 0, missing: 2 });
    assert_eq!(FrameScan::of(&[7, 0xAA, 0x55, 0xA4]), FrameScan::Partial { start: 1, missing: 1 });
    assert_eq!(FrameScan::of(&[0xAA, 0x55, 0xA4, 3]), FrameScan::Partial { start: 0, missing: 3 });
    assert_eq!(FrameScan::of(&[0xAA, 0x55, 0xA4, 0]), FrameScan::Complete { start: 0, end: 4 });
    assert_eq!(FrameScan::of(&[0xAA, 0x55, 0x56, 1]), FrameScan::Partial { start: 0, missing: 1 });
    assert_eq!(
        FrameScan::of(&[0xAA, 0x55, 0x56, 1, 2]),
        FrameScan::Partial { start: 0, missing: 0x0102 }
    );
    assert_eq!(
        FrameScan::of(&[0xAA, 0x55, 0x56, 0xFF, 0xFF, 0]),
        FrameScan::Partial { start: 0, missing: 0xFFFE }
    );
}

#[test]
fn reader_is_led_through_a_reply() {
    let frame = extended_reply(0x76, &[1, 2, 3, 4, 5]);
    let mut stream = vec![0x00, 0xAA, 0x13];
    stream.extend_from_slice(&frame);
    let mut buf: Vec<u8> = Vec::new();
    let mut at = 0;
    let mut reads: Vec<usize> = Vec::new();
    loop {
        match ReadStep::next(&buf, false) {
            ReadStep::Done => break,
            ReadStep::TimedOut => panic!("no deadline has passed"),
            ReadStep::Read(n) => {
                reads.push(n);
                buf.extend_from_slice(&stream[at..at + n]);
                at += n;
            }
        }
    }
    assert_eq!(reads, vec![1, 1, 1, 1, 1, 2, 1, 8]);
    assert_eq!(buf, stream);
    assert_eq!(decode_extended_reply(&buf, ALL).unwrap().1, vec![1, 2, 3, 4, 5]);
}

#[test]
fn reader_gives_up_at_the_deadline_while_it_seeks_the_header() {
    assert_eq!(ReadStep::next(&[], true), ReadStep::Read(1));
    assert_eq!(ReadStep::next(&[0x00], true), ReadStep::TimedOut);
    assert_eq!(ReadStep::next(&[0x00, 0xAA], true), ReadStep::TimedOut);
    assert_eq!(ReadStep::next(&[0x00, 0xAA, 0x55], true), ReadStep::TimedOut);
    assert_eq!(ReadStep::next(&[0x00, 0xAA, 0x55], false), ReadStep::Read(2));
    assert_eq!(ReadStep::next(&[0x00, 0xAA, 0x55, 0xA4, 2], true), ReadStep::Read(2));
    assert_eq!(ReadStep::next(&[0x00, 0xAA, 0x55, 0xA4, 2, 1, 1], true), ReadStep::Done);
}

#[test]
fn transport_refuses_another_opcode_where_extended_is_expected() {
    let mut fake = FakeDevice::brain();
    fake.replies.push(Ok(simple_reply(0x18, &[1, 2, 3])));
    fake.replies.push(Ok(simple_reply(0xA4, &[])));
    fake.replies.push(Ok(extended_reply(0xCF, &[])));
    let mut wrapper = VexProtocolWrapper::new(VexDeviceType::System, fake);
    assert_eq!(wrapper.receive_extended(None, ALL), Err(V5Error::UnexpectedOpcode));
    assert_eq!(wrapper.receive_extended(None, CRC_ONLY), Err(V5Error::UnexpectedOpcode));
    assert_eq!(
        wrapper.receive_extended(None, ALL),
        Err(V5Error::Nack(VexACKType::NACKUnspecified))
    );
    assert!(!V5Error::Nack(VexACKType::NACKUnspecified).is_fatal());
}

#[test]
fn transport_receives_what_the_link_read() {
    let mut fake = FakeDevice::brain();
    fake.replies.push(Ok(simple_reply(0xA4, &[4, 5])));
    fake.replies.push(Ok(extended_reply(0x76, &[6, 7, 8])));
    fake.replies.push(Err(V5Error::HeaderSyncTimeout));
    fake.replies.push(Err(V5Error::Io));
    fake.replies.push(Ok(extended_reply(0xD6, &[])));
    let mut wrapper = VexProtocolWrapper::new(VexDeviceType::User, fake);
    let first = wrapper.receive_simple(None).unwrap();
    assert_eq!((first.0, first.1), (VexDeviceCommand::GetSystemVersion, vec![4, 5]));
    let second = wrapper.receive_extended(Some(250), ALL).unwrap();
    assert_eq!((second.0, second.1), (VexDeviceCommand::Extended, vec![6, 7, 8]));
    assert_eq!(second.2, extended_reply(0x76, &[6, 7, 8]));
    assert_eq!(wrapper.receive_extended(Some(5000), ALL), Err(V5Error::HeaderSyncTimeout));
    assert_eq!(wrapper.receive_simple(Some(1)), Err(V5Error::Io));
    assert_eq!(
        wrapper.receive_extended(None, ALL),
        Err(V5Error::Nack(VexACKType::NACKLengthModFourNzero))
    );
    let fake = wrapper.into_inner();
    assert_eq!(fake.timeouts, vec![DEFAULT_TIMEOUT_MS, 250, 5000, 1, 100]);
    assert!(fake.writes.is_empty());
}
