//! Packets and the transport that carries them.
//!
//! The host speaks in packets that open with `C9 36 B8 47` and an opcode;
//! the device answers in frames that open with `AA 55`, an opcode and a
//! length. Extended packets travel under the opcode `Extended` and end
//! in a CRC-16 that covers every byte before it.

use crate::checksum::{
    crc16, crc16_bytes, crc16_checksum, lemma_crc16_residue, lemma_crc16_update_concat,
    Crc16Digest,
};
use crate::error::V5Error;
pub use crate::v5::protocol::{VexACKType, VexDeviceCommand, VexDeviceType};
use vstd::prelude::*;

verus! {

/// The opcode byte of `Extended`.
pub const EXTENDED: u8 = 0x56;

/// The reply deadline used when the caller names none, in milliseconds.
pub const DEFAULT_TIMEOUT_MS: u64 = 100;

/// The five bytes that open every packet to the device.
pub open spec fn packet_header(code: u8) -> Seq<u8> {
    seq![0xc9u8, 0x36u8, 0xb8u8, 0x47u8, code]
}

/// A simple packet: the header, then the payload as it is.
pub open spec fn simple_packet(code: u8, payload: Seq<u8>) -> Seq<u8> {
    packet_header(code) + payload
}

/// The length field of an extended packet: one byte below `0x80`, two
/// bytes, low byte first, from there on.
pub open spec fn extended_length(len: nat) -> Seq<u8> {
    if len < 0x80 {
        seq![len as u8]
    } else {
        seq![(len % 256) as u8, (len / 256) as u8]
    }
}

/// An extended packet before its checksum.
pub open spec fn extended_body(code: u8, payload: Seq<u8>) -> Seq<u8> {
    seq![code] + extended_length(payload.len()) + payload
}

/// An extended packet: opcode, length, payload and the CRC-16 of the
/// whole frame that carries it, high byte first.
pub open spec fn extended_packet(code: u8, payload: Seq<u8>) -> Seq<u8> {
    let body = extended_body(code, payload);
    body + crc16_bytes(crc16(simple_packet(EXTENDED, body)))
}

/// The bytes on the wire of an extended request.
pub open spec fn extended_frame(code: u8, payload: Seq<u8>) -> Seq<u8> {
    simple_packet(EXTENDED, extended_packet(code, payload))
}

/// What reading back an extended request gives.
pub open spec fn parse_extended_frame(
    frame: Seq<u8>,
) -> Result<(VexDeviceCommand, Seq<u8>), V5Error> {
    let n = frame.len() as int;
    if n < 9 {
        Err(V5Error::InvalidPayloadLength)
    } else if frame.subrange(0, 5) != packet_header(EXTENDED) {
        Err(V5Error::UnexpectedOpcode)
    } else if crc16(frame) != 0 {
        Err(V5Error::CrcMismatch)
    } else {
        match VexDeviceCommand::spec_from_u8(frame[5]) {
            None => Err(V5Error::UnexpectedOpcode),
            Some(command) => {
                if frame[6] < 0x80 && frame[6] == n - 9 {
                    Ok((command, frame.subrange(7, n - 2)))
                } else if n >= 10 && frame[6] + 256 * frame[7] >= 0x80 && frame[6] + 256
                    * frame[7] == n - 10 {
                    Ok((command, frame.subrange(8, n - 2)))
                } else {
                    Err(V5Error::InvalidPayloadLength)
                }
            },
        }
    }
}

/// The view of a parsed request.
pub open spec fn parsed_view(r: Result<(VexDeviceCommand, Vec<u8>), V5Error>) -> Result<
    (VexDeviceCommand, Seq<u8>),
    V5Error,
> {
    match r {
        Ok((command, payload)) => Ok((command, payload@)),
        Err(e) => Err(e),
    }
}

/// An extended request ends in the checksum of all that precedes it, so
/// the checksum of the whole frame is zero.
pub proof fn lemma_extended_frame_residue(code: u8, payload: Seq<u8>)
    ensures
        crc16(extended_frame(code, payload)) == 0,
{
    let body = extended_body(code, payload);
    let covered = simple_packet(EXTENDED, body);
    assert(extended_frame(code, payload) =~= covered + crc16_bytes(crc16(covered)));
    lemma_crc16_residue(covered);
}

/// Reading back an extended request gives the opcode and the payload
/// that went in.
pub proof fn lemma_extended_frame_round_trip(command: VexDeviceCommand, payload: Seq<u8>)
    requires
        payload.len() <= 0xFFFF,
    ensures
        parse_extended_frame(extended_frame(command.spec_code(), payload)) == Ok::<
            (VexDeviceCommand, Seq<u8>),
            V5Error,
        >((command, payload)),
{
    let code = command.spec_code();
    let frame = extended_frame(code, payload);
    let len = payload.len();
    lemma_extended_frame_residue(code, payload);
    assert(frame.subrange(0, 5) =~= packet_header(EXTENDED));
    assert(frame[5] == code);
    assert(VexDeviceCommand::spec_from_u8(code) == Some(command));
    if len < 0x80 {
        assert(frame.len() == len + 9);
        assert(frame[6] == len as u8);
        assert(frame.subrange(7, frame.len() - 2) =~= payload);
    } else {
        assert(frame.len() == len + 10);
        assert(frame[6] == (len % 256) as u8);
        assert(frame[7] == (len / 256) as u8);
        assert(frame[6] + 256 * frame[7] == len);
        assert(frame[6] >= 0x80 || frame[6] != frame.len() - 9);
        assert(frame.subrange(8, frame.len() - 2) =~= payload);
    }
}

/// The length field of an extended packet is one byte below `0x80` and
/// two bytes otherwise, and in both forms the bytes name the length.
pub proof fn lemma_extended_length_round_trip(len: nat)
    requires
        len <= 0xFFFF,
    ensures
        len < 0x80 ==> extended_length(len).len() == 1 && extended_length(len)[0] == len,
        len >= 0x80 ==> extended_length(len).len() == 2 && extended_length(len)[0] + 256
            * extended_length(len)[1] == len,
{
}

/// Whether the two header bytes of a reply stand at index `i` of `s`.
pub open spec fn is_header_at(s: Seq<u8>, i: int) -> bool {
    0 <= i && i + 1 < s.len() && s[i] == 0xAA && s[i + 1] == 0x55
}

/// The index of the first reply header in `s` at or after `from`.
pub open spec fn find_header(s: Seq<u8>, from: int) -> Option<int>
    decreases s.len() - from,
{
    if from < 0 || from + 2 > s.len() {
        None
    } else if is_header_at(s, from) {
        Some(from)
    } else {
        find_header(s, from + 1)
    }
}

/// Where the payload of the reply whose header stands at `start` begins:
/// after opcode and length, the length of `Extended` taking two bytes.
pub open spec fn body_start(s: Seq<u8>, start: int) -> int {
    if s[start + 2] == EXTENDED {
        start + 5
    } else {
        start + 4
    }
}

/// The payload length that the reply whose header stands at `start`
/// declares: one byte, or for `Extended` two bytes, high byte first.
pub open spec fn body_len(s: Seq<u8>, start: int) -> int {
    if s[start + 2] == EXTENDED {
        s[start + 3] * 256 + s[start + 4]
    } else {
        s[start + 3] as int
    }
}

/// One past the last byte of the reply whose header stands at `start`.
pub open spec fn frame_end(s: Seq<u8>, start: int) -> int {
    body_start(s, start) + body_len(s, start)
}

/// How many bytes the reply whose header stands at `start` still wants
/// before more can be said of it; zero when all of it is there.
pub open spec fn frame_missing(s: Seq<u8>, start: int) -> int {
    if s.len() < start + 4 {
        start + 4 - s.len()
    } else if s[start + 2] == EXTENDED && s.len() < start + 5 {
        1
    } else if s.len() < frame_end(s, start) {
        frame_end(s, start) - s.len()
    } else {
        0
    }
}

/// How far a buffer of received bytes has come towards one whole reply.
#[derive(Clone, Copy, Debug, PartialEq, Eq, Structural)]
pub enum FrameScan {
    /// No header yet.
    Syncing,
    /// A header stands at `start`; `missing` more bytes are wanted before
    /// more can be said.
    Partial { start: usize, missing: usize },
    /// A whole reply lies in `start..end`.
    Complete { start: usize, end: usize },
}

/// How far `s` has come towards one whole reply.
pub open spec fn scan_frame(s: Seq<u8>) -> FrameScan {
    match find_header(s, 0) {
        None => FrameScan::Syncing,
        Some(start) => if frame_missing(s, start) > 0 {
            FrameScan::Partial { start: start as usize, missing: frame_missing(s, start) as usize }
        } else {
            FrameScan::Complete { start: start as usize, end: frame_end(s, start) as usize }
        },
    }
}

/// What the reader of a reply does next.
#[derive(Clone, Copy, Debug, PartialEq, Eq, Structural)]
pub enum ReadStep {
    /// Read exactly this many bytes and append them to the buffer.
    Read(usize),
    /// Give up: no header arrived before the deadline.
    TimedOut,
    /// The buffer holds a whole reply.
    Done,
}

/// What the reader does next, given all bytes read so far and whether
/// the deadline has passed. The deadline counts while the header is
/// sought, and is looked at after each byte read for it.
pub open spec fn next_read(s: Seq<u8>, deadline_passed: bool) -> ReadStep {
    match find_header(s, 0) {
        None => if deadline_passed && s.len() > 0 {
            ReadStep::TimedOut
        } else {
            ReadStep::Read(1)
        },
        Some(start) => if deadline_passed && s.len() == start + 2 {
            ReadStep::TimedOut
        } else if frame_missing(s, start) > 0 {
            ReadStep::Read(frame_missing(s, start) as usize)
        } else {
            ReadStep::Done
        },
    }
}

/// A reply: its opcode, its payload, and all its bytes from the header on.
pub struct Reply {
    pub command: VexDeviceCommand,
    pub payload: Seq<u8>,
    pub raw: Seq<u8>,
}

/// What a buffer of received bytes decodes to as a simple reply. Bytes
/// before the first header are skipped; a buffer that holds no whole
/// reply is an I/O failure.
pub open spec fn decode_simple(s: Seq<u8>) -> Result<Reply, V5Error> {
    match find_header(s, 0) {
        None => Err(V5Error::Io),
        Some(start) => if frame_missing(s, start) > 0 {
            Err(V5Error::Io)
        } else {
            match VexDeviceCommand::spec_from_u8(s[start + 2]) {
                None => Err(V5Error::UnexpectedOpcode),
                Some(command) => Ok(
                    Reply {
                        command,
                        payload: s.subrange(body_start(s, start), frame_end(s, start)),
                        raw: s.subrange(start, frame_end(s, start)),
                    },
                ),
            }
        },
    }
}

/// The acknowledgement byte `0x76` lets the request stand; every byte
/// from `0xCE` to `0xDB` is the device's refusal, with the code that
/// the byte stands for; every other byte is no acknowledgement at all.
pub proof fn lemma_ack_outcome(value: u8)
    ensures
        ack_outcome(value) is Ok <==> value == 0x76,
        0xCE <= value <= 0xDB <==> (ack_outcome(value) matches Err(V5Error::Nack(kind))
            && kind.spec_code() == value && kind != VexACKType::ACK),
        value != 0x76 && !(0xCE <= value <= 0xDB) <==> ack_outcome(value) == Err::<(), V5Error>(
            V5Error::UnknownAck(value),
        ),
{
}

/// Which checks an extended reply has to pass.
#[derive(Clone, Copy, Debug, PartialEq, Eq, Structural)]
pub struct ResponseCheckFlags {
    /// The acknowledgement byte must be `ACK`.
    pub ack: bool,
    /// The CRC-16 over the whole reply must be zero.
    pub crc: bool,
}

/// What the acknowledgement byte `value` means for the request.
pub open spec fn ack_outcome(value: u8) -> Result<(), V5Error> {
    match VexACKType::spec_from_u8(value) {
        None => Err(V5Error::UnknownAck(value)),
        Some(VexACKType::ACK) => Ok(()),
        Some(nack) => Err(V5Error::Nack(nack)),
    }
}

/// What a simple reply means as an extended one: its opcode is
/// `Extended`, the checksum over all its bytes is zero, its payload
/// holds the acknowledgement byte, the extended payload and the two
/// checksum bytes, in that order. The opcode is looked at first: a
/// reply of another opcode is unexpected, whatever its bytes sum to.
pub open spec fn extended_reply(reply: Reply, flags: ResponseCheckFlags) -> Result<Reply, V5Error> {
    if reply.command != VexDeviceCommand::Extended {
        Err(V5Error::UnexpectedOpcode)
    } else if flags.crc && crc16(reply.raw) != 0 {
        Err(V5Error::CrcMismatch)
    } else if reply.payload.len() < 3 {
        Err(V5Error::InvalidPayloadLength)
    } else if flags.ack && ack_outcome(reply.payload[0]) is Err {
        Err(ack_outcome(reply.payload[0])->Err_0)
    } else {
        Ok(
            Reply {
                command: VexDeviceCommand::Extended,
                payload: reply.payload.subrange(1, reply.payload.len() - 2),
                raw: reply.raw,
            },
        )
    }
}

/// What a buffer of received bytes decodes to as an extended reply.
pub open spec fn decode_extended(s: Seq<u8>, flags: ResponseCheckFlags) -> Result<Reply, V5Error> {
    match decode_simple(s) {
        Err(e) => Err(e),
        Ok(reply) => extended_reply(reply, flags),
    }
}

/// The view of a decoded reply.
pub open spec fn reply_view(r: Result<(VexDeviceCommand, Vec<u8>, Vec<u8>), V5Error>) -> Result<
    Reply,
    V5Error,
> {
    match r {
        Ok((command, payload, raw)) => Ok(Reply { command, payload: payload@, raw: raw@ }),
        Err(e) => Err(e),
    }
}

/// Where no header stands before `from`, the first header of all is the
/// first at or after `from`.
pub proof fn lemma_find_header_skip(s: Seq<u8>, from: int)
    requires
        0 <= from,
        forall|i: int| 0 <= i < from ==> !is_header_at(s, i),
    ensures
        find_header(s, 0) == find_header(s, from),
    decreases from,
{
    if from > 0 {
        lemma_find_header_skip(s, from - 1);
        if from - 1 + 2 > s.len() {
            assert(find_header(s, from - 1) is None);
            assert(find_header(s, from) is None);
        } else {
            assert(!is_header_at(s, from - 1));
        }
    }
}

/// Bytes that hold no header of their own, put before bytes that open
/// with a header, change nothing of what is decoded.
pub proof fn lemma_decode_ignores_prefix(x: Seq<u8>, f: Seq<u8>, flags: ResponseCheckFlags)
    requires
        forall|i: int| !is_header_at(x, i),
        is_header_at(f, 0),
    ensures
        decode_simple(x + f) == decode_simple(f),
        decode_extended(x + f, flags) == decode_extended(f, flags),
{
    let s = x + f;
    let k = x.len() as int;
    assert forall|i: int| 0 <= i < k implies !is_header_at(s, i) by {
        if i + 1 < k {
            assert(!is_header_at(x, i));
            assert(s[i] == x[i] && s[i + 1] == x[i + 1]);
        } else {
            assert(s[i + 1] == f[0]);
        }
    }
    lemma_find_header_skip(s, k);
    assert(is_header_at(s, k)) by {
        assert(s[k] == f[0] && s[k + 1] == f[1]);
    }
    assert(find_header(s, k) == Some(k));
    assert(find_header(f, 0) == Some(0int));
    assert forall|j: int| 0 <= j < f.len() implies s[k + j] == f[j] by {}
    if f.len() >= 4 {
        assert(s[k + 2] == f[2] && s[k + 3] == f[3]);
        if f.len() >= 5 {
            assert(s[k + 4] == f[4]);
        }
        if !(f[2] == EXTENDED && f.len() < 5) {
            assert(body_len(s, k) == body_len(f, 0));
            assert(body_start(s, k) == k + body_start(f, 0));
            let end = frame_end(f, 0);
            assert(frame_end(s, k) == k + end);
            if f.len() >= end {
                assert(s.subrange(body_start(s, k), k + end) =~= f.subrange(body_start(f, 0), end));
                assert(s.subrange(k, k + end) =~= f.subrange(0, end));
            }
        }
    }
    assert(frame_missing(s, k) == frame_missing(f, 0));
}

/// The header that is found is the first one at or after `from`, and
/// where none is found there is none.
pub proof fn lemma_find_header_first(s: Seq<u8>, from: int)
    requires
        0 <= from,
    ensures
        match find_header(s, from) {
            Some(at) => from <= at && is_header_at(s, at) && forall|i: int|
                from <= i < at ==> !is_header_at(s, i),
            None => forall|i: int| from <= i ==> !is_header_at(s, i),
        },
    decreases s.len() - from,
{
    if from + 2 <= s.len() && !is_header_at(s, from) {
        lemma_find_header_first(s, from + 1);
    }
}

/// Where no header stands at or after `from`, none is found from there.
pub proof fn lemma_find_header_none(s: Seq<u8>, from: int)
    requires
        0 <= from,
        forall|i: int| from <= i ==> !is_header_at(s, i),
    ensures
        find_header(s, from) is None,
    decreases s.len() - from,
{
    if from + 2 <= s.len() {
        lemma_find_header_none(s, from + 1);
    }
}

/// A reader that follows [`next_read`] through bytes that hold no
/// header of their own and then one whole reply never asks for a byte
/// beyond the end of the reply, and is done when it has read them all.
pub proof fn lemma_reader_stays_within(x: Seq<u8>, f: Seq<u8>, k: int)
    requires
        forall|i: int| !is_header_at(x, i),
        is_header_at(f, 0),
        frame_missing(f, 0) == 0,
        frame_end(f, 0) == f.len(),
        0 <= k <= x.len() + f.len(),
    ensures
        k < x.len() + f.len() ==> (next_read((x + f).subrange(0, k), false) matches ReadStep::Read(
            n,
        ) && 1 <= n <= x.len() + f.len() - k),
        k == x.len() + f.len() ==> next_read((x + f).subrange(0, k), false) == ReadStep::Done,
{
    let all = x + f;
    let s = all.subrange(0, k);
    let at = x.len() as int;
    assert forall|i: int| 0 <= i < at implies !is_header_at(s, i) by {
        if is_header_at(s, i) {
            if i + 1 < at {
                assert(x[i] == s[i] && x[i + 1] == s[i + 1]);
                assert(is_header_at(x, i));
            } else {
                assert(s[i + 1] == f[0]);
            }
        }
    }
    if k < at + 2 {
        assert forall|i: int| 0 <= i implies !is_header_at(s, i) by {}
        lemma_find_header_none(s, 0);
    } else {
        lemma_find_header_skip(s, at);
        assert(s[at] == f[0] && s[at + 1] == f[1]);
        assert(is_header_at(s, at));
        assert(find_header(s, 0) == Some(at));
        assert(f.len() >= 4);
        if k >= at + 4 {
            assert(s[at + 2] == f[2] && s[at + 3] == f[3]);
            if f[2] == EXTENDED {
                assert(f.len() >= 5);
                if k >= at + 5 {
                    assert(s[at + 4] == f[4]);
                    assert(frame_end(s, at) == at + frame_end(f, 0));
                }
            } else {
                assert(frame_end(s, at) == at + frame_end(f, 0));
            }
        }
    }
}

/// A copy of `buf[from..to]`.
pub fn copy_range(buf: &[u8], from: usize, to: usize) -> (out: Vec<u8>)
    requires
        from <= to <= buf@.len(),
    ensures
        out@ == buf@.subrange(from as int, to as int),
{
    let mut out: Vec<u8> = Vec::new();
    let mut i: usize = from;
    while i < to
        invariant
            from <= i <= to <= buf@.len(),
            out@ == buf@.subrange(from as int, i as int),
        decreases to - i,
    {
        out.push(buf[i]);
        proof {
            assert(out@ =~= buf@.subrange(from as int, i + 1));
        }
        i += 1;
    }
    out
}

fn find_header_index(buf: &[u8]) -> (found: Option<usize>)
    ensures
        match found {
            Some(i) => find_header(buf@, 0) == Some(i as int) && i + 2 <= buf@.len(),
            None => find_header(buf@, 0) is None,
        },
{
    let n = buf.len();
    if n < 2 {
        return None;
    }
    let mut i: usize = 0;
    while i <= n - 2
        invariant
            n == buf@.len(),
            n >= 2,
            i <= n - 1,
            forall|j: int| 0 <= j < i ==> !is_header_at(buf@, j),
        decreases n - i,
    {
        if buf[i] == 0xAA && buf[i + 1] == 0x55 {
            proof {
                lemma_find_header_skip(buf@, i as int);
            }
            return Some(i);
        }
        i += 1;
    }
    proof {
        lemma_find_header_skip(buf@, i as int);
    }
    None
}

impl FrameScan {
    /// Whether the positions of this scan lie within a buffer of `len`
    /// bytes whose first header stands at `found`.
    pub open spec fn fits(self, len: nat, found: Option<int>) -> bool {
        match self {
            FrameScan::Syncing => found is None,
            FrameScan::Partial { start, missing } => found == Some(start as int) && start + 2
                <= len && missing > 0,
            FrameScan::Complete { start, end } => found == Some(start as int) && start + 4 <= end
                <= len,
        }
    }

    /// Looks how far `buf` has come towards one whole reply.
    pub fn of(buf: &[u8]) -> (scan: FrameScan)
        ensures
            scan == scan_frame(buf@),
            scan.fits(buf@.len(), find_header(buf@, 0)),
            scan matches FrameScan::Partial { start, missing } ==> missing == frame_missing(
                buf@,
                start as int,
            ),
            scan matches FrameScan::Complete { start, end } ==> end == frame_end(buf@, start as int)
                && frame_missing(buf@, start as int) == 0,
    {
        let n = buf.len();
        match find_header_index(buf) {
            None => FrameScan::Syncing,
            Some(start) => {
                let have = n - start;
                if have < 4 {
                    return FrameScan::Partial { start, missing: 4 - have };
                }
                let extended = buf[start + 2] == EXTENDED;
                if extended && have < 5 {
                    return FrameScan::Partial { start, missing: 1 };
                }
                let need: usize = if extended {
                    let hi: usize = buf[start + 3] as usize;
                    let lo: usize = buf[start + 4] as usize;
                    5 + hi * 256 + lo
                } else {
                    let len: usize = buf[start + 3] as usize;
                    4 + len
                };
                assert(need == frame_end(buf@, start as int) - start);
                if have < need {
                    FrameScan::Partial { start, missing: need - have }
                } else {
                    FrameScan::Complete { start, end: start + need }
                }
            },
        }
    }
}

impl ReadStep {
    /// Says what the reader of a reply does next: `buf` holds all bytes
    /// read so far, and `deadline_passed` says whether the deadline had
    /// passed when the last of them had been read.
    pub fn next(buf: &[u8], deadline_passed: bool) -> (step: ReadStep)
        ensures
            step == next_read(buf@, deadline_passed),
    {
        match FrameScan::of(buf) {
            FrameScan::Syncing => if deadline_passed && buf.len() > 0 {
                ReadStep::TimedOut
            } else {
                ReadStep::Read(1)
            },
            FrameScan::Partial { start, missing } => if deadline_passed && buf.len() - start == 2 {
                ReadStep::TimedOut
            } else {
                ReadStep::Read(missing)
            },
            FrameScan::Complete { start, end } => ReadStep::Done,
        }
    }
}

/// Decodes a buffer of received bytes as a simple reply: its opcode, its
/// payload, and all its bytes from the header on.
pub fn decode_simple_reply(buf: &[u8]) -> (r: Result<(VexDeviceCommand, Vec<u8>, Vec<u8>), V5Error>)
    ensures
        reply_view(r) == decode_simple(buf@),
{
    match FrameScan::of(buf) {
        FrameScan::Complete { start, end } => {
            match VexDeviceCommand::from_u8(buf[start + 2]) {
                None => Err(V5Error::UnexpectedOpcode),
                Some(command) => {
                    let body: usize = if buf[start + 2] == EXTENDED {
                        start + 5
                    } else {
                        start + 4
                    };
                    let payload = copy_range(buf, body, end);
                    let raw = copy_range(buf, start, end);
                    Ok((command, payload, raw))
                },
            }
        },
        _ => Err(V5Error::Io),
    }
}

/// Reads the acknowledgement byte of an extended reply.
pub fn check_ack(value: u8) -> (r: Result<(), V5Error>)
    ensures
        r == ack_outcome(value),
{
    match VexACKType::from_u8(value) {
        None => Err(V5Error::UnknownAck(value)),
        Some(VexACKType::ACK) => Ok(()),
        Some(nack) => Err(V5Error::Nack(nack)),
    }
}

/// Takes a decoded simple reply as an extended one: checks what `flags`
/// asks for, and strips the acknowledgement byte and the checksum from
/// the payload.
pub fn check_extended_reply(
    command: VexDeviceCommand,
    payload: Vec<u8>,
    raw: Vec<u8>,
    flags: ResponseCheckFlags,
) -> (r: Result<(VexDeviceCommand, Vec<u8>, Vec<u8>), V5Error>)
    ensures
        reply_view(r) == extended_reply(Reply { command, payload: payload@, raw: raw@ }, flags),
{
    match command {
        VexDeviceCommand::Extended => {},
        _ => {
            return Err(V5Error::UnexpectedOpcode);
        },
    }
    if flags.crc && crc16_checksum(raw.as_slice()) != 0 {
        return Err(V5Error::CrcMismatch);
    }
    if payload.len() < 3 {
        return Err(V5Error::InvalidPayloadLength);
    }
    if flags.ack {
        match check_ack(payload[0]) {
            Err(e) => {
                return Err(e);
            },
            Ok(()) => {},
        }
    }
    let inner = copy_range(payload.as_slice(), 1, payload.len() - 2);
    Ok((VexDeviceCommand::Extended, inner, raw))
}

/// Decodes a buffer of received bytes as an extended reply.
pub fn decode_extended_reply(buf: &[u8], flags: ResponseCheckFlags) -> (r: Result<
    (VexDeviceCommand, Vec<u8>, Vec<u8>),
    V5Error,
>)
    ensures
        reply_view(r) == decode_extended(buf@, flags),
{
    match decode_simple_reply(buf) {
        Err(e) => Err(e),
        Ok((command, payload, raw)) => check_extended_reply(command, payload, raw, flags),
    }
}

/// Reads back an extended request as it travels to the device: checks
/// header, checksum and length, and gives the opcode and the payload.
pub fn decode_extended_frame(frame: &[u8]) -> (r: Result<(VexDeviceCommand, Vec<u8>), V5Error>)
    ensures
        parsed_view(r) == parse_extended_frame(frame@),
{
    let n = frame.len();
    if n < 9 {
        return Err(V5Error::InvalidPayloadLength);
    }
    if !(frame[0] == 0xc9 && frame[1] == 0x36 && frame[2] == 0xb8 && frame[3] == 0x47 && frame[4]
        == EXTENDED) {
        proof {
            let head = frame@.subrange(0, 5);
            assert(head[0] == frame@[0] && head[1] == frame@[1] && head[2] == frame@[2] && head[3]
                == frame@[3] && head[4] == frame@[4]);
        }
        return Err(V5Error::UnexpectedOpcode);
    }
    assert(frame@.subrange(0, 5) =~= packet_header(EXTENDED));
    if crc16_checksum(frame) != 0 {
        return Err(V5Error::CrcMismatch);
    }
    match VexDeviceCommand::from_u8(frame[5]) {
        None => Err(V5Error::UnexpectedOpcode),
        Some(command) => {
            let b0: usize = frame[6] as usize;
            let b1: usize = frame[7] as usize;
            if b0 < 0x80 && b0 == n - 9 {
                Ok((command, copy_range(frame, 7, n - 2)))
            } else if n >= 10 && b0 + 256 * b1 >= 0x80 && b0 + 256 * b1 == n - 10 {
                Ok((command, copy_range(frame, 8, n - 2)))
            } else {
                Err(V5Error::InvalidPayloadLength)
            }
        },
    }
}

/// A serial connection to one endpoint of a V5 device.
///
/// The transport makes no assumption about an implementation: whatever
/// a call returns is checked before it is used.
pub trait SerialLink {
    /// Writes all of `bytes` and flushes; `false` when the stream failed.
    fn send(&mut self, bytes: &[u8]) -> bool;

    /// Reads the bytes of one reply, following [`ReadStep::next`], with
    /// `timeout_ms` milliseconds to find its header.
    fn read_frame(&mut self, timeout_ms: u64) -> Result<Vec<u8>, V5Error>;
}

/// One call of [`SerialLink::send`]: what was handed over, and whether
/// the link took it.
pub struct Written {
    pub bytes: Seq<u8>,
    pub ok: bool,
}

/// What one call of [`SerialLink::read_frame`] returned.
pub type ReadOutcome = Result<Seq<u8>, V5Error>;

/// One call of [`SerialLink::read_frame`]: the deadline it was given,
/// in milliseconds, and what it returned.
pub struct Read {
    pub timeout_ms: u64,
    pub outcome: ReadOutcome,
}

/// All that has passed between a transport and its link, oldest first.
pub struct Trace {
    pub writes: Seq<Written>,
    pub reads: Seq<Read>,
}

/// The deadline of a reply in milliseconds: the one that was given, or
/// the default of the transport.
pub open spec fn effective_timeout(timeout: Option<u64>) -> u64 {
    match timeout {
        Some(t) => t,
        None => DEFAULT_TIMEOUT_MS,
    }
}

impl Trace {
    /// The trace of a transport that has done nothing yet.
    pub open spec fn empty() -> Trace {
        Trace { writes: Seq::empty(), reads: Seq::empty() }
    }

    /// This trace after one more write.
    pub open spec fn write(self, bytes: Seq<u8>, ok: bool) -> Trace {
        Trace { writes: self.writes.push(Written { bytes, ok }), reads: self.reads }
    }

    /// This trace after one more read with a deadline of `timeout_ms`
    /// milliseconds.
    pub open spec fn read(self, timeout_ms: u64, outcome: ReadOutcome) -> Trace {
        Trace { writes: self.writes, reads: self.reads.push(Read { timeout_ms, outcome }) }
    }

    /// Whether `later` is this trace after one request: the write of
    /// `request` and, where the link took it, one read with a deadline
    /// of `timeout_ms` milliseconds.
    pub open spec fn exchange(self, later: Trace, request: Seq<u8>, timeout_ms: u64) -> bool {
        ||| later == self.write(request, false)
        ||| later.reads.len() > 0 && later == self.write(request, true).read(
            timeout_ms,
            later.reads.last().outcome,
        )
    }

    /// What came back for the last request of this trace: the outcome of
    /// its read, or an I/O failure where the link did not take the write.
    pub open spec fn last_reply(self) -> ReadOutcome {
        if self.writes.len() > 0 && self.writes.last().ok && self.reads.len() > 0 {
            self.reads.last().outcome
        } else {
            Err(V5Error::Io)
        }
    }

    /// This trace cut back to its first `writes` writes and its first
    /// `reads` reads.
    pub open spec fn upto(self, writes: int, reads: int) -> Trace {
        Trace { writes: self.writes.subrange(0, writes), reads: self.reads.subrange(0, reads) }
    }

    /// The writes of requests that the link took, one for each of
    /// `frames`, in order.
    pub open spec fn taken(frames: Seq<Seq<u8>>) -> Seq<Written> {
        Seq::new(frames.len(), |i: int| Written { bytes: frames[i], ok: true })
    }

    /// Whether `later` is this trace after the requests `frames`, in
    /// that order and nothing else, of which the link took each and
    /// after each of which it was read from once.
    pub open spec fn took(self, later: Trace, frames: Seq<Seq<u8>>) -> bool {
        &&& later.writes == self.writes + Trace::taken(frames)
        &&& later.reads.len() == self.reads.len() + frames.len()
        &&& later.reads.subrange(0, self.reads.len() as int) == self.reads
    }

    /// The bytes of the last write of this trace.
    pub open spec fn last_sent(self) -> Seq<u8> {
        self.writes.last().bytes
    }

    /// This trace without its last request: without the last write and,
    /// where the link took that write, without the last read.
    pub open spec fn before_last(self) -> Trace {
        Trace {
            writes: self.writes.drop_last(),
            reads: if self.writes.len() > 0 && self.writes.last().ok {
                self.reads.drop_last()
            } else {
                self.reads
            },
        }
    }
}

/// A trace has taken no request since itself.
pub proof fn lemma_took_nothing(earlier: Trace)
    ensures
        earlier.took(earlier, Seq::empty()),
{
    assert(earlier.writes =~= earlier.writes + Trace::taken(Seq::empty()));
    assert(earlier.reads.subrange(0, earlier.reads.len() as int) =~= earlier.reads);
}

/// An exchange whose write the link took is one request taken.
pub proof fn lemma_took_one(earlier: Trace, later: Trace, request: Seq<u8>, timeout_ms: u64)
    requires
        earlier.exchange(later, request, timeout_ms),
        later.writes.len() > 0 && later.writes.last().ok,
    ensures
        earlier.took(later, seq![request]),
        later.before_last() == earlier,
{
    assert(later == earlier.write(request, true).read(timeout_ms, later.reads.last().outcome));
    assert(later.writes =~= earlier.writes + Trace::taken(seq![request]));
    assert(later.reads.subrange(0, earlier.reads.len() as int) =~= earlier.reads);
    assert(later.writes.drop_last() =~= earlier.writes);
    assert(later.reads.drop_last() =~= earlier.reads);
}

/// Requests taken one run after another are taken in one run, and the
/// trace between the runs is the later one cut back.
pub proof fn lemma_took_both(
    earlier: Trace,
    between: Trace,
    later: Trace,
    first: Seq<Seq<u8>>,
    second: Seq<Seq<u8>>,
)
    requires
        earlier.took(between, first),
        between.took(later, second),
    ensures
        earlier.took(later, first + second),
        later.upto(between.writes.len() as int, between.reads.len() as int) == between,
{
    assert(Trace::taken(first + second) =~= Trace::taken(first) + Trace::taken(second));
    assert(later.writes =~= earlier.writes + Trace::taken(first + second));
    assert(later.reads.subrange(0, earlier.reads.len() as int) =~= between.reads.subrange(
        0,
        earlier.reads.len() as int,
    ));
    assert(later.writes.subrange(0, between.writes.len() as int) =~= between.writes);
}

/// What the outcome of a read means as a simple reply.
pub open spec fn simple_outcome(outcome: ReadOutcome) -> Result<Reply, V5Error> {
    match outcome {
        Err(e) => Err(e),
        Ok(bytes) => decode_simple(bytes),
    }
}

/// What the outcome of a read means as an extended reply.
pub open spec fn extended_outcome(outcome: ReadOutcome, flags: ResponseCheckFlags) -> Result<
    Reply,
    V5Error,
> {
    match outcome {
        Err(e) => Err(e),
        Ok(bytes) => decode_extended(bytes, flags),
    }
}

/// Sends packets to one endpoint of a V5 device and receives its replies.
pub struct VexProtocolWrapper<T: SerialLink> {
    device_type: VexDeviceType,
    wraps: T,
    trace: Ghost<Trace>,
}

impl<T: SerialLink> VexProtocolWrapper<T> {
    /// All that has passed between this transport and its link.
    pub closed spec fn trace(&self) -> Trace {
        self.trace@
    }

    /// The role of the endpoint.
    pub closed spec fn spec_device_type(&self) -> VexDeviceType {
        self.device_type
    }

    /// The link as it is now: the one that this transport was made
    /// over, after all the writes and reads that it has served.
    pub closed spec fn link(&self) -> T {
        self.wraps
    }

    /// A transport over `wraps`.
    pub fn new(device_type: VexDeviceType, wraps: T) -> (wrapper: VexProtocolWrapper<T>)
        ensures
            wrapper.trace() == Trace::empty(),
            wrapper.spec_device_type() == device_type,
            wrapper.link() == wraps,
    {
        VexProtocolWrapper { device_type, wraps, trace: Ghost(Trace::empty()) }
    }

    /// The role of the endpoint.
    pub fn device_type(&self) -> (device_type: VexDeviceType)
        ensures
            device_type == self.spec_device_type(),
    {
        self.device_type
    }

    /// Gives the link back, as it is after all the writes and reads
    /// that it has served.
    pub fn into_inner(self) -> (link: T)
        ensures
            link == self.link(),
    {
        self.wraps
    }

    /// The header of a packet that carries `msg`.
    pub fn create_packet(&self, msg: VexDeviceCommand) -> (packet: Vec<u8>)
        ensures
            packet@ == packet_header(msg.spec_code()),
    {
        let mut packet: Vec<u8> = Vec::new();
        packet.push(0xc9);
        packet.push(0x36);
        packet.push(0xb8);
        packet.push(0x47);
        packet.push(msg.code());
        proof {
            assert(packet@ =~= packet_header(msg.spec_code()));
        }
        packet
    }

    /// The extended packet that carries `command` with `payload`, as it
    /// travels inside a simple packet of opcode `Extended`.
    pub fn create_extended_packet(&self, command: VexDeviceCommand, payload: Vec<u8>) -> (r: Result<
        Vec<u8>,
        V5Error,
    >)
        ensures
            payload@.len() > 0xFFFF ==> r == Err::<Vec<u8>, V5Error>(V5Error::InvalidPayloadLength),
            payload@.len() <= 0xFFFF ==> r is Ok && r->Ok_0@ == extended_packet(
                command.spec_code(),
                payload@,
            ),
    {
        let len = payload.len();
        if len > 0xFFFF {
            return Err(V5Error::InvalidPayloadLength);
        }
        let mut packet: Vec<u8> = Vec::new();
        packet.push(command.code());
        if len < 0x80 {
            packet.push(len as u8);
        } else {
            packet.push((len % 256) as u8);
            packet.push((len / 256) as u8);
        }
        packet.extend_from_slice(payload.as_slice());
        proof {
            assert(packet@ =~= extended_body(command.spec_code(), payload@));
        }
        let header = self.create_packet(VexDeviceCommand::Extended);
        let mut digest = Crc16Digest::new();
        digest.update(header.as_slice());
        digest.update(packet.as_slice());
        let calc = digest.finalize();
        proof {
            lemma_crc16_update_concat(0, header@, packet@);
        }
        packet.push((calc >> 8) as u8);
        packet.push((calc & 0xff) as u8);
        proof {
            assert(packet@ =~= extended_packet(command.spec_code(), payload@));
        }
        Ok(packet)
    }

    /// Sends a simple packet: the header with `command`, then `data`.
    /// Gives the number of bytes handed to the link.
    pub fn send_simple(&mut self, command: VexDeviceCommand, data: Vec<u8>) -> (r: Result<
        usize,
        V5Error,
    >)
        ensures
            final(self).trace() == old(self).trace().write(
                simple_packet(command.spec_code(), data@),
                r is Ok,
            ),
            final(self).spec_device_type() == old(self).spec_device_type(),
            r is Ok ==> r->Ok_0 == 5 + data@.len(),
            r is Err ==> r->Err_0 == V5Error::Io,
    {
        let mut packet = self.create_packet(command);
        packet.extend_from_slice(data.as_slice());
        proof {
            assert(packet@ =~= simple_packet(command.spec_code(), data@));
        }
        let ok = self.wraps.send(packet.as_slice());
        proof {
            self.trace = Ghost(self.trace@.write(packet@, ok));
        }
        if ok {
            Ok(packet.len())
        } else {
            Err(V5Error::Io)
        }
    }

    /// Sends `command` with `data` as an extended packet. A payload of
    /// more than 65535 bytes is refused and nothing is sent.
    pub fn send_extended(&mut self, command: VexDeviceCommand, data: Vec<u8>) -> (r: Result<
        usize,
        V5Error,
    >)
        ensures
            final(self).spec_device_type() == old(self).spec_device_type(),
            data@.len() > 0xFFFF ==> r == Err::<usize, V5Error>(V5Error::InvalidPayloadLength)
                && final(self).trace() == old(self).trace(),
            data@.len() <= 0xFFFF ==> final(self).trace() == old(self).trace().write(
                extended_frame(command.spec_code(), data@),
                r is Ok,
            ),
            data@.len() <= 0xFFFF && r is Ok ==> r->Ok_0 == extended_frame(
                command.spec_code(),
                data@,
            ).len(),
            data@.len() <= 0xFFFF && r is Err ==> r->Err_0 == V5Error::Io,
    {
        match self.create_extended_packet(command, data) {
            Err(e) => Err(e),
            Ok(payload) => self.send_simple(VexDeviceCommand::Extended, payload),
        }
    }

    /// Receives one simple reply: its opcode, its payload, and all its
    /// bytes from the header on. Without a `timeout`, in milliseconds,
    /// the header is awaited for [`DEFAULT_TIMEOUT_MS`].
    pub fn receive_simple(&mut self, timeout: Option<u64>) -> (r: Result<
        (VexDeviceCommand, Vec<u8>, Vec<u8>),
        V5Error,
    >)
        ensures
            final(self).trace().reads.len() > 0,
            final(self).trace() == old(self).trace().read(
                effective_timeout(timeout),
                final(self).trace().reads.last().outcome,
            ),
            final(self).spec_device_type() == old(self).spec_device_type(),
            reply_view(r) == simple_outcome(final(self).trace().reads.last().outcome),
    {
        let timeout_ms = match timeout {
            Some(t) => t,
            None => DEFAULT_TIMEOUT_MS,
        };
        let outcome = self.wraps.read_frame(timeout_ms);
        match outcome {
            Err(e) => {
                proof {
                    self.trace = Ghost(self.trace@.read(timeout_ms, Err(e)));
                }
                Err(e)
            },
            Ok(bytes) => {
                proof {
                    self.trace = Ghost(self.trace@.read(timeout_ms, Ok(bytes@)));
                }
                decode_simple_reply(bytes.as_slice())
            },
        }
    }

    /// Receives one extended reply and checks what `check_flags` asks
    /// for. The payload comes without acknowledgement byte and checksum.
    pub fn receive_extended(
        &mut self,
        timeout: Option<u64>,
        check_flags: ResponseCheckFlags,
    ) -> (r: Result<(VexDeviceCommand, Vec<u8>, Vec<u8>), V5Error>)
        ensures
            final(self).trace().reads.len() > 0,
            final(self).trace() == old(self).trace().read(
                effective_timeout(timeout),
                final(self).trace().reads.last().outcome,
            ),
            final(self).spec_device_type() == old(self).spec_device_type(),
            reply_view(r) == extended_outcome(
                final(self).trace().reads.last().outcome,
                check_flags,
            ),
    {
        match self.receive_simple(timeout) {
            Err(e) => Err(e),
            Ok((command, payload, raw)) => check_extended_reply(command, payload, raw, check_flags),
        }
    }
}

} // verus!
