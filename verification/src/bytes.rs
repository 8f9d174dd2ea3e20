//! Fixed-width integers as bytes on the wire, in both byte orders.

use vstd::prelude::*;

verus! {

/// The lowest byte of a 16-bit value.
pub open spec fn lo8(v: u16) -> u8 {
    (v % 256) as u8
}

/// The highest byte of a 16-bit value.
pub open spec fn hi8(v: u16) -> u8 {
    (v / 256) as u8
}

/// The 16-bit value whose lowest byte is `lo` and whose highest byte is `hi`.
pub open spec fn u16_of(lo: u8, hi: u8) -> u16 {
    (lo as int + hi as int * 256) as u16
}

/// Byte `i` (0 is the lowest) of a 32-bit value.
pub open spec fn byte32(v: u32, i: int) -> u8 {
    if i == 0 {
        (v % 256) as u8
    } else if i == 1 {
        ((v / 256) % 256) as u8
    } else if i == 2 {
        ((v / 65536) % 256) as u8
    } else {
        (v / 16777216) as u8
    }
}

/// The 32-bit value made of four bytes, lowest first.
pub open spec fn u32_of(b0: u8, b1: u8, b2: u8, b3: u8) -> u32 {
    (b0 as int + b1 as int * 256 + b2 as int * 65536 + b3 as int * 16777216) as u32
}

/// A 16-bit value in little-endian order.
pub open spec fn le16(v: u16) -> Seq<u8> {
    seq![lo8(v), hi8(v)]
}

/// A 16-bit value in big-endian order.
pub open spec fn be16(v: u16) -> Seq<u8> {
    seq![hi8(v), lo8(v)]
}

/// A 32-bit value in little-endian order.
pub open spec fn le32(v: u32) -> Seq<u8> {
    seq![byte32(v, 0), byte32(v, 1), byte32(v, 2), byte32(v, 3)]
}

/// The little-endian 16-bit value at offset `at` of `b`.
pub open spec fn le16_at(b: Seq<u8>, at: int) -> u16 {
    u16_of(b[at], b[at + 1])
}

/// The big-endian 16-bit value at offset `at` of `b`.
pub open spec fn be16_at(b: Seq<u8>, at: int) -> u16 {
    u16_of(b[at + 1], b[at])
}

/// The little-endian 32-bit value at offset `at` of `b`.
pub open spec fn le32_at(b: Seq<u8>, at: int) -> u32 {
    u32_of(b[at], b[at + 1], b[at + 2], b[at + 3])
}

/// Splitting a 16-bit value into bytes and joining them gives it back.
pub proof fn lemma_u16_bytes(v: u16)
    ensures
        u16_of(lo8(v), hi8(v)) == v,
{
}

/// Splitting a 32-bit value into bytes and joining them gives it back.
pub proof fn lemma_u32_bytes(v: u32)
    ensures
        u32_of(byte32(v, 0), byte32(v, 1), byte32(v, 2), byte32(v, 3)) == v,
{
}

/// Reads the little-endian 16-bit value at offset `at`.
pub fn read_u16_le(bytes: &[u8], at: usize) -> (v: u16)
    requires
        at + 2 <= bytes@.len(),
    ensures
        v == le16_at(bytes@, at as int),
{
    let lo: u16 = bytes[at] as u16;
    let hi: u16 = bytes[at + 1] as u16;
    lo + hi * 256
}

/// Reads the big-endian 16-bit value at offset `at`.
pub fn read_u16_be(bytes: &[u8], at: usize) -> (v: u16)
    requires
        at + 2 <= bytes@.len(),
    ensures
        v == be16_at(bytes@, at as int),
{
    let hi: u16 = bytes[at] as u16;
    let lo: u16 = bytes[at + 1] as u16;
    lo + hi * 256
}

/// Reads the little-endian 32-bit value at offset `at`.
pub fn read_u32_le(bytes: &[u8], at: usize) -> (v: u32)
    requires
        at + 4 <= bytes@.len(),
    ensures
        v == le32_at(bytes@, at as int),
{
    let b0: u32 = bytes[at] as u32;
    let b1: u32 = bytes[at + 1] as u32;
    let b2: u32 = bytes[at + 2] as u32;
    let b3: u32 = bytes[at + 3] as u32;
    b0 + b1 * 256 + b2 * 65536 + b3 * 16777216
}

/// Appends a 16-bit value in little-endian order.
pub fn push_u16_le(out: &mut Vec<u8>, v: u16)
    ensures
        final(out)@ == old(out)@ + le16(v),
{
    out.push((v % 256) as u8);
    out.push((v / 256) as u8);
    assert(out@ =~= old(out)@ + le16(v));
}

/// Appends a 16-bit value in big-endian order.
pub fn push_u16_be(out: &mut Vec<u8>, v: u16)
    ensures
        final(out)@ == old(out)@ + be16(v),
{
    out.push((v / 256) as u8);
    out.push((v % 256) as u8);
    assert(out@ =~= old(out)@ + be16(v));
}

/// Appends a 32-bit value in little-endian order.
pub fn push_u32_le(out: &mut Vec<u8>, v: u32)
    ensures
        final(out)@ == old(out)@ + le32(v),
{
    out.push((v % 256) as u8);
    out.push(((v / 256) % 256) as u8);
    out.push(((v / 65536) % 256) as u8);
    out.push((v / 16777216) as u8);
    assert(out@ =~= old(out)@ + le32(v));
}

} // verus!
