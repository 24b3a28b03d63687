//! The two checksums of the V5 serial protocol.
//!
//! Packets are protected by CRC-16/XMODEM; file contents by a 32-bit CRC
//! with the polynomial `0x04C11DB7`. Both start from zero, process each
//! byte most significant bit first and apply no final XOR, so the
//! checksum of a message followed by its own checksum (high byte first)
//! is zero.

use vstd::prelude::*;

verus! {

/// Generator polynomial of CRC-16/XMODEM.
pub const VEX_CRC16_POLY: u16 = 0x1021;

/// CRC-16/XMODEM of the ASCII digits `123456789`.
pub const VEX_CRC16_CHECK: u16 = 0x31C3;

/// Generator polynomial of the V5 CRC-32.
pub const VEX_CRC32_POLY: u32 = 0x04C11DB7;

/// V5 CRC-32 of the ASCII digits `123456789`.
pub const VEX_CRC32_CHECK: u32 = 0x89A1897F;

/// One bit step of CRC-16/XMODEM: shift left, and reduce by the
/// polynomial when a one was shifted out.
pub open spec fn crc16_shift(crc: u16) -> u16 {
    if crc & 0x8000 != 0 {
        (crc << 1) ^ 0x1021
    } else {
        crc << 1
    }
}

/// The CRC-16/XMODEM register after one more byte.
pub open spec fn crc16_byte(crc: u16, byte: u8) -> u16 {
    let c0 = crc ^ ((byte as u16) << 8);
    let c1 = crc16_shift(c0);
    let c2 = crc16_shift(c1);
    let c3 = crc16_shift(c2);
    let c4 = crc16_shift(c3);
    let c5 = crc16_shift(c4);
    let c6 = crc16_shift(c5);
    let c7 = crc16_shift(c6);
    crc16_shift(c7)
}

/// The CRC-16/XMODEM register after `data`, starting from `crc`.
pub open spec fn crc16_update(crc: u16, data: Seq<u8>) -> u16
    decreases data.len(),
{
    if data.len() == 0 {
        crc
    } else {
        crc16_byte(crc16_update(crc, data.drop_last()), data.last())
    }
}

/// CRC-16/XMODEM of `data`.
pub open spec fn crc16(data: Seq<u8>) -> u16 {
    crc16_update(0, data)
}

/// The two bytes of a CRC-16 as they travel on the wire, high byte first.
pub open spec fn crc16_bytes(crc: u16) -> Seq<u8> {
    seq![(crc >> 8) as u8, (crc & 0xff) as u8]
}

/// One bit step of the V5 CRC-32.
pub open spec fn crc32_shift(crc: u32) -> u32 {
    if crc & 0x8000_0000 != 0 {
        (crc << 1) ^ 0x04C11DB7
    } else {
        crc << 1
    }
}

/// The V5 CRC-32 register after one more byte.
pub open spec fn crc32_byte(crc: u32, byte: u8) -> u32 {
    let c0 = crc ^ ((byte as u32) << 24);
    let c1 = crc32_shift(c0);
    let c2 = crc32_shift(c1);
    let c3 = crc32_shift(c2);
    let c4 = crc32_shift(c3);
    let c5 = crc32_shift(c4);
    let c6 = crc32_shift(c5);
    let c7 = crc32_shift(c6);
    crc32_shift(c7)
}

/// The V5 CRC-32 register after `data`, starting from `crc`.
pub open spec fn crc32_update(crc: u32, data: Seq<u8>) -> u32
    decreases data.len(),
{
    if data.len() == 0 {
        crc
    } else {
        crc32_byte(crc32_update(crc, data.drop_last()), data.last())
    }
}

/// V5 CRC-32 of `data`.
pub open spec fn crc32(data: Seq<u8>) -> u32 {
    crc32_update(0, data)
}

/// Feeding `a` and then `b` is the same as feeding `a + b`.
pub proof fn lemma_crc16_update_concat(crc: u16, a: Seq<u8>, b: Seq<u8>)
    ensures
        crc16_update(crc, a + b) == crc16_update(crc16_update(crc, a), b),
    decreases b.len(),
{
    if b.len() == 0 {
        assert(a + b =~= a);
    } else {
        assert((a + b).drop_last() =~= a + b.drop_last());
        assert((a + b).last() == b.last());
        lemma_crc16_update_concat(crc, a, b.drop_last());
    }
}

/// A CRC-16 computed in two parts equals the checksum of the whole.
pub proof fn lemma_crc16_split(a: Seq<u8>, b: Seq<u8>)
    ensures
        crc16_update(crc16(a), b) == crc16(a + b),
{
    lemma_crc16_update_concat(0, a, b);
}

/// Feeding a register's own two bytes, high byte first, clears it.
pub proof fn lemma_crc16_register_residue(crc: u16)
    ensures
        crc16_update(crc, crc16_bytes(crc)) == 0,
{
    let hi = (crc >> 8) as u8;
    let lo = (crc & 0xff) as u8;
    let tail = crc16_bytes(crc);
    let mid = crc16_byte(crc, hi);
    assert(tail.drop_last() =~= seq![hi]);
    assert(tail.drop_last().drop_last() =~= Seq::<u8>::empty());
    assert(crc16_update(crc, tail.drop_last().drop_last()) == crc);
    assert(crc16_update(crc, tail.drop_last()) == mid);
    assert(crc16_update(crc, tail) == crc16_byte(mid, lo));
    assert(crc16_byte(crc, (crc >> 8) as u8) == (crc & 0xff) << 8) by (bit_vector);
    assert(mid == (lo as u16) << 8) by (bit_vector)
        requires
            mid == (crc & 0xff) << 8,
            lo == (crc & 0xff) as u8,
    ;
    assert(crc16_byte((lo as u16) << 8, lo) == 0) by (bit_vector);
}

/// A message followed by its CRC-16, high byte first, has checksum zero.
pub proof fn lemma_crc16_residue(data: Seq<u8>)
    ensures
        crc16(data + crc16_bytes(crc16(data))) == 0,
{
    lemma_crc16_update_concat(0, data, crc16_bytes(crc16(data)));
    lemma_crc16_register_residue(crc16(data));
}

/// CRC-16/XMODEM of the ASCII digits `123456789` is `0x31C3`.
pub proof fn lemma_crc16_check_value()
    ensures
        crc16(seq![0x31u8, 0x32, 0x33, 0x34, 0x35, 0x36, 0x37, 0x38, 0x39]) == VEX_CRC16_CHECK,
{
    let d = seq![0x31u8, 0x32, 0x33, 0x34, 0x35, 0x36, 0x37, 0x38, 0x39];
    let d8 = d.drop_last();
    let d7 = d8.drop_last();
    let d6 = d7.drop_last();
    let d5 = d6.drop_last();
    let d4 = d5.drop_last();
    let d3 = d4.drop_last();
    let d2 = d3.drop_last();
    let d1 = d2.drop_last();
    let d0 = d1.drop_last();
    assert(crc16_update(0, d0) == 0);
    assert(crc16_byte(0, 0x31) == 0x2672) by (bit_vector);
    assert(crc16_update(0, d1) == 0x2672);
    assert(crc16_byte(0x2672, 0x32) == 0x20b5) by (bit_vector);
    assert(crc16_update(0, d2) == 0x20b5);
    assert(crc16_byte(0x20b5, 0x33) == 0x9752) by (bit_vector);
    assert(crc16_update(0, d3) == 0x9752);
    assert(crc16_byte(0x9752, 0x34) == 0xd789) by (bit_vector);
    assert(crc16_update(0, d4) == 0xd789);
    assert(crc16_byte(0xd789, 0x35) == 0x546c) by (bit_vector);
    assert(crc16_update(0, d5) == 0x546c);
    assert(crc16_byte(0x546c, 0x36) == 0x20e4) by (bit_vector);
    assert(crc16_update(0, d6) == 0x20e4);
    assert(crc16_byte(0x20e4, 0x37) == 0x86d6) by (bit_vector);
    assert(crc16_update(0, d7) == 0x86d6);
    assert(crc16_byte(0x86d6, 0x38) == 0x9015) by (bit_vector);
    assert(crc16_update(0, d8) == 0x9015);
    assert(crc16_byte(0x9015, 0x39) == 0x31c3) by (bit_vector);
    assert(crc16_update(0, d) == 0x31c3);
}

/// Feeding `a` and then `b` is the same as feeding `a + b`.
pub proof fn lemma_crc32_update_concat(crc: u32, a: Seq<u8>, b: Seq<u8>)
    ensures
        crc32_update(crc, a + b) == crc32_update(crc32_update(crc, a), b),
    decreases b.len(),
{
    if b.len() == 0 {
        assert(a + b =~= a);
    } else {
        assert((a + b).drop_last() =~= a + b.drop_last());
        assert((a + b).last() == b.last());
        lemma_crc32_update_concat(crc, a, b.drop_last());
    }
}

/// A V5 CRC-32 computed in two parts equals the checksum of the whole.
pub proof fn lemma_crc32_split(a: Seq<u8>, b: Seq<u8>)
    ensures
        crc32_update(crc32(a), b) == crc32(a + b),
{
    lemma_crc32_update_concat(0, a, b);
}

/// The V5 CRC-32 of the ASCII digits `123456789` is `0x89A1897F`.
pub proof fn lemma_crc32_check_value()
    ensures
        crc32(seq![0x31u8, 0x32, 0x33, 0x34, 0x35, 0x36, 0x37, 0x38, 0x39]) == VEX_CRC32_CHECK,
{
    let d = seq![0x31u8, 0x32, 0x33, 0x34, 0x35, 0x36, 0x37, 0x38, 0x39];
    let d8 = d.drop_last();
    let d7 = d8.drop_last();
    let d6 = d7.drop_last();
    let d5 = d6.drop_last();
    let d4 = d5.drop_last();
    let d3 = d4.drop_last();
    let d2 = d3.drop_last();
    let d1 = d2.drop_last();
    let d0 = d1.drop_last();
    assert(crc32_update(0, d0) == 0);
    assert(crc32_byte(0, 0x31) == 0xd0f37027) by (bit_vector);
    assert(crc32_update(0, d1) == 0xd0f37027);
    assert(crc32_byte(0xd0f37027, 0x32) == 0x3f5b3a17) by (bit_vector);
    assert(crc32_update(0, d2) == 0x3f5b3a17);
    assert(crc32_byte(0x3f5b3a17, 0x33) == 0x6e368c64) by (bit_vector);
    assert(crc32_update(0, d3) == 0x6e368c64);
    assert(crc32_byte(0x6e368c64, 0x34) == 0x619119d1) by (bit_vector);
    assert(crc32_update(0, d4) == 0x619119d1);
    assert(crc32_byte(0x619119d1, 0x35) == 0xfa8a0cdb) by (bit_vector);
    assert(crc32_update(0, d5) == 0xfa8a0cdb);
    assert(crc32_byte(0xfa8a0cdb, 0x36) == 0xe28ad0fd) by (bit_vector);
    assert(crc32_update(0, d6) == 0xe28ad0fd);
    assert(crc32_byte(0xe28ad0fd, 0x37) == 0x8c8edd82) by (bit_vector);
    assert(crc32_update(0, d7) == 0x8c8edd82);
    assert(crc32_byte(0x8c8edd82, 0x38) == 0x20e779a2) by (bit_vector);
    assert(crc32_update(0, d8) == 0x20e779a2);
    assert(crc32_byte(0x20e779a2, 0x39) == 0x89a1897f) by (bit_vector);
    assert(crc32_update(0, d) == 0x89a1897f);
}

fn crc16_shift_once(crc: u16) -> (r: u16)
    ensures
        r == crc16_shift(crc),
{
    if crc & 0x8000 != 0 {
        (crc << 1) ^ 0x1021
    } else {
        crc << 1
    }
}

fn crc16_step(crc: u16, byte: u8) -> (r: u16)
    ensures
        r == crc16_byte(crc, byte),
{
    let c0 = crc ^ ((byte as u16) << 8);
    let c1 = crc16_shift_once(c0);
    let c2 = crc16_shift_once(c1);
    let c3 = crc16_shift_once(c2);
    let c4 = crc16_shift_once(c3);
    let c5 = crc16_shift_once(c4);
    let c6 = crc16_shift_once(c5);
    let c7 = crc16_shift_once(c6);
    crc16_shift_once(c7)
}

fn crc32_shift_once(crc: u32) -> (r: u32)
    ensures
        r == crc32_shift(crc),
{
    if crc & 0x8000_0000 != 0 {
        (crc << 1) ^ 0x04C11DB7
    } else {
        crc << 1
    }
}

fn crc32_step(crc: u32, byte: u8) -> (r: u32)
    ensures
        r == crc32_byte(crc, byte),
{
    let c0 = crc ^ ((byte as u32) << 24);
    let c1 = crc32_shift_once(c0);
    let c2 = crc32_shift_once(c1);
    let c3 = crc32_shift_once(c2);
    let c4 = crc32_shift_once(c3);
    let c5 = crc32_shift_once(c4);
    let c6 = crc32_shift_once(c5);
    let c7 = crc32_shift_once(c6);
    crc32_shift_once(c7)
}

/// A running CRC-16/XMODEM.
pub struct Crc16Digest {
    state: u16,
}

impl Crc16Digest {
    /// The register: the checksum of everything fed so far.
    pub closed spec fn value(&self) -> u16 {
        self.state
    }

    /// A digest that has seen no byte.
    pub fn new() -> (digest: Self)
        ensures
            digest.value() == 0,
    {
        Crc16Digest { state: 0 }
    }

    /// Feeds `bytes` to the digest.
    pub fn update(&mut self, bytes: &[u8])
        ensures
            final(self).value() == crc16_update(old(self).value(), bytes@),
    {
        let mut crc = self.state;
        let mut i: usize = 0;
        while i < bytes.len()
            invariant
                i <= bytes.len(),
                crc == crc16_update(old(self).state, bytes@.take(i as int)),
            decreases bytes.len() - i,
        {
            proof {
                assert(bytes@.take(i + 1).drop_last() =~= bytes@.take(i as int));
            }
            crc = crc16_step(crc, bytes[i]);
            i += 1;
        }
        proof {
            assert(bytes@.take(i as int) =~= bytes@);
        }
        self.state = crc;
    }

    /// The checksum of everything fed so far.
    pub fn finalize(self) -> (crc: u16)
        ensures
            crc == self.value(),
    {
        self.state
    }
}

/// CRC-16/XMODEM of `data`.
pub fn crc16_checksum(data: &[u8]) -> (crc: u16)
    ensures
        crc == crc16(data@),
{
    let mut digest = Crc16Digest::new();
    digest.update(data);
    digest.finalize()
}

/// A running V5 CRC-32.
pub struct Crc32Digest {
    state: u32,
}

impl Crc32Digest {
    /// The register: the checksum of everything fed so far.
    pub closed spec fn value(&self) -> u32 {
        self.state
    }

    /// A digest that has seen no byte.
    pub fn new() -> (digest: Self)
        ensures
            digest.value() == 0,
    {
        Crc32Digest { state: 0 }
    }

    /// Feeds `bytes` to the digest.
    pub fn update(&mut self, bytes: &[u8])
        ensures
            final(self).value() == crc32_update(old(self).value(), bytes@),
    {
        let mut crc = self.state;
        let mut i: usize = 0;
        while i < bytes.len()
            invariant
                i <= bytes.len(),
                crc == crc32_update(old(self).state, bytes@.take(i as int)),
            decreases bytes.len() - i,
        {
            proof {
                assert(bytes@.take(i + 1).drop_last() =~= bytes@.take(i as int));
            }
            crc = crc32_step(crc, bytes[i]);
            i += 1;
        }
        proof {
            assert(bytes@.take(i as int) =~= bytes@);
        }
        self.state = crc;
    }

    /// The checksum of everything fed so far.
    pub fn finalize(self) -> (crc: u32)
        ensures
            crc == self.value(),
    {
        self.state
    }
}

/// V5 CRC-32 of `data`.
pub fn crc32_checksum(data: &[u8]) -> (crc: u32)
    ensures
        crc == crc32(data@),
{
    let mut digest = Crc32Digest::new();
    digest.update(data);
    digest.finalize()
}

} // verus!
