//! Integers as they lie in payloads: fixed width, low byte first.

use vstd::prelude::*;

verus! {

/// The two bytes of `x`, low byte first.
pub open spec fn le16(x: u16) -> Seq<u8> {
    seq![(x % 256) as u8, (x / 256) as u8]
}

/// The four bytes of `x`, low byte first.
pub open spec fn le32(x: u32) -> Seq<u8> {
    seq![
        (x % 256) as u8,
        (x / 256 % 256) as u8,
        (x / 65536 % 256) as u8,
        (x / 16777216) as u8,
    ]
}

/// The number that the first two bytes of `s` hold, low byte first.
pub open spec fn from_le16(s: Seq<u8>) -> u16
    recommends
        s.len() >= 2,
{
    (s[0] + 256 * s[1]) as u16
}

/// The number that the first four bytes of `s` hold, low byte first.
pub open spec fn from_le32(s: Seq<u8>) -> u32
    recommends
        s.len() >= 4,
{
    (s[0] + 256 * s[1] + 65536 * s[2] + 16777216 * s[3]) as u32
}

/// Reading the bytes of a number gives the number back.
pub proof fn lemma_le_round_trip(a: u16, b: u32)
    ensures
        le16(a).len() == 2,
        le32(b).len() == 4,
        from_le16(le16(a)) == a,
        from_le32(le32(b)) == b,
{
}

/// Appends the two bytes of `x` to `out`.
pub fn push_le16(out: &mut Vec<u8>, x: u16)
    ensures
        final(out)@ == old(out)@ + le16(x),
{
    out.push((x % 256) as u8);
    out.push((x / 256) as u8);
    proof {
        assert(out@ =~= old(out)@ + le16(x));
    }
}

/// Appends the four bytes of `x` to `out`.
pub fn push_le32(out: &mut Vec<u8>, x: u32)
    ensures
        final(out)@ == old(out)@ + le32(x),
{
    out.push((x % 256) as u8);
    out.push((x / 256 % 256) as u8);
    out.push((x / 65536 % 256) as u8);
    out.push((x / 16777216) as u8);
    proof {
        assert(out@ =~= old(out)@ + le32(x));
    }
}

/// Reads the number held by the two bytes of `buf` at `at`.
pub fn read_le16(buf: &[u8], at: usize) -> (x: u16)
    requires
        at + 2 <= buf@.len(),
    ensures
        x == from_le16(buf@.subrange(at as int, at + 2)),
{
    let b0: u16 = buf[at] as u16;
    let b1: u16 = buf[at + 1] as u16;
    b0 + 256 * b1
}

/// Reads the number held by the four bytes of `buf` at `at`.
pub fn read_le32(buf: &[u8], at: usize) -> (x: u32)
    requires
        at + 4 <= buf@.len(),
    ensures
        x == from_le32(buf@.subrange(at as int, at + 4)),
{
    let b0: u32 = buf[at] as u32;
    let b1: u32 = buf[at + 1] as u32;
    let b2: u32 = buf[at + 2] as u32;
    let b3: u32 = buf[at + 3] as u32;
    b0 + 256 * b1 + 65536 * b2 + 16777216 * b3
}

/// Appends all of `bytes` to `out`.
pub fn push_all(out: &mut Vec<u8>, bytes: &[u8])
    ensures
        final(out)@ == old(out)@ + bytes@,
{
    out.extend_from_slice(bytes);
}

} // verus!
