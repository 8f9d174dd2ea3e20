//! The SMA-Net2 datagram: an outer header, an inner header and a padded body.
//!
//! | offset | size | field                                              |
//! |-------:|-----:|----------------------------------------------------|
//! |      0 |    4 | magic `53 4D 41 00`                                |
//! |      4 |    4 | tag `00 04 02 A0`                                  |
//! |      8 |    4 | group address                                      |
//! |     12 |    2 | length of all that follows the outer header, big-endian |
//! |     14 |    4 | protocol selector `00 10 00 60`                    |
//! |     18 |    6 | destination address                                |
//! |     24 |    2 | destination susy-id                                |
//! |     26 |    6 | source address                                     |
//! |     32 |    2 | source susy-id                                     |
//! |     34 |    2 | control flags                                      |
//! |     36 |    2 | packet counter                                     |
//! |     38 |    4 | session identifier                                 |
//! |     42 |    4 | length of the body before padding                  |
//! |     46 |    4 | opcode, the first field of the body                |
//! |     50 |    n | parameters or reply payload                        |
//! |        | 0..3 | zero bytes up to a multiple of four                |
//!
//! Every multi-byte field but the outer length is little-endian.

use vstd::prelude::*;
use crate::bytes::{
    be16, be16_at, byte32, hi8, le16, le16_at, le32, le32_at, lemma_u16_bytes, lemma_u32_bytes,
    lo8, push_u16_be, push_u16_le, push_u32_le, read_u16_be, read_u16_le, read_u32_le,
};

verus! {

/// Length of the outer header.
pub const OUTER_LEN: usize = 18;

/// Length of the inner header.
pub const INNER_LEN: usize = 28;

/// Offset of the parameters or reply payload in a datagram.
pub const PAYLOAD_OFFSET: usize = 50;

/// The longest payload whose frame the 16-bit outer length can declare.
pub const MAX_PAYLOAD: usize = 65500;

/// The group address of discovery traffic.
pub const GROUP_BROADCAST: u32 = 0xFFFF_FFFF;

/// The field of a datagram that failed validation.
#[derive(Clone, Copy, Debug, PartialEq, Eq, Structural)]
pub enum Field {
    /// The first four bytes are not the protocol's magic.
    Magic,
    /// The tag after the magic, or the protocol selector, is not the expected constant.
    Tag,
    /// The datagram is shorter than an outer header, or longer than it declares.
    Length,
    /// The datagram ends before the body that it declares, or declares no room for an opcode.
    Body,
    /// The body is not padded to a multiple of four with zero bytes.
    Padding,
    /// The opcode is not the one that was asked for.
    Opcode,
    /// The packet counter is not the one that was sent.
    Counter,
    /// The source address is not that of the device of this session.
    Address,
    /// The status byte of a reply holds an unknown code.
    Status,
    /// A measurement record carries a class other than its register's.
    Class,
    /// A measurement record carries no timestamp.
    Timestamp,
}

/// A 6-byte protocol address, as its low four bytes and its high two.
#[derive(Clone, Copy, Debug, PartialEq, Eq, Structural)]
pub struct DeviceAddress {
    pub low: u32,
    pub high: u16,
}

/// A protocol address with the susy-id that accompanies it in the inner header.
#[derive(Clone, Copy, Debug, PartialEq, Eq, Structural)]
pub struct Endpoint {
    pub address: DeviceAddress,
    pub susy_id: u16,
}

/// One datagram, taken apart.
#[derive(Clone, Debug, PartialEq, Eq)]
pub struct Frame {
    pub group: u32,
    pub destination: Endpoint,
    pub source: Endpoint,
    /// The control byte pair, kept exactly as written or read.
    pub control: u16,
    pub counter: u16,
    pub session_id: u32,
    pub opcode: u32,
    /// What follows the opcode in the body, without padding.
    pub payload: Vec<u8>,
}

/// The mathematical value of a [`Frame`].
pub struct FrameView {
    pub group: u32,
    pub destination: Endpoint,
    pub source: Endpoint,
    pub control: u16,
    pub counter: u16,
    pub session_id: u32,
    pub opcode: u32,
    pub payload: Seq<u8>,
}

impl View for Frame {
    type V = FrameView;

    open spec fn view(&self) -> FrameView {
        FrameView {
            group: self.group,
            destination: self.destination,
            source: self.source,
            control: self.control,
            counter: self.counter,
            session_id: self.session_id,
            opcode: self.opcode,
            payload: self.payload@,
        }
    }
}

/// The first eight bytes of every datagram: the magic and the tag.
pub open spec fn preamble() -> Seq<u8> {
    seq![0x53u8, 0x4Du8, 0x41u8, 0x00u8, 0x00u8, 0x04u8, 0x02u8, 0xA0u8]
}

/// The protocol selector that closes the outer header.
pub open spec fn selector() -> Seq<u8> {
    seq![0x00u8, 0x10u8, 0x00u8, 0x60u8]
}

/// `n` rounded up to a multiple of four.
pub open spec fn padded(n: int) -> int {
    (n + 3) / 4 * 4
}

/// `n` zero bytes.
pub open spec fn zeros(n: int) -> Seq<u8> {
    Seq::new(n as nat, |i: int| 0u8)
}

/// An address with its susy-id as they stand in the inner header.
pub open spec fn endpoint_bytes(e: Endpoint) -> Seq<u8> {
    le32(e.address.low) + le16(e.address.high) + le16(e.susy_id)
}

/// The number of zero bytes that follow a body with `n` payload bytes.
pub open spec fn padding_len(n: int) -> int {
    padded(4 + n) - (4 + n)
}

/// The value that the outer length field of a frame with `n` payload bytes holds.
pub open spec fn declared_len(n: int) -> int {
    INNER_LEN as int + padded(4 + n)
}

/// The fixed-size part of a datagram: both headers and the opcode.
#[verifier::opaque]
pub open spec fn spec_head(f: FrameView) -> Seq<u8> {
    preamble() + le32(f.group) + be16(declared_len(f.payload.len() as int) as u16) + selector()
        + endpoint_bytes(f.destination) + endpoint_bytes(f.source) + le16(f.control) + le16(
        f.counter,
    ) + le32(f.session_id) + le32((4 + f.payload.len()) as u32) + le32(f.opcode)
}

/// The datagram that carries `f`. Meant for payloads of at most [`MAX_PAYLOAD`] bytes.
pub open spec fn spec_encode(f: FrameView) -> Seq<u8> {
    spec_head(f) + f.payload + zeros(padding_len(f.payload.len() as int))
}

/// The address with its susy-id that stands at offset `at` of `b`.
pub open spec fn endpoint_at(b: Seq<u8>, at: int) -> Endpoint {
    Endpoint {
        address: DeviceAddress { low: le32_at(b, at), high: le16_at(b, at + 4) },
        susy_id: le16_at(b, at + 6),
    }
}

/// What a datagram decodes to: the frame it carries, or the first field that fails.
///
/// The checks run in this order: the datagram holds an outer header; the magic;
/// the tag and the selector; the datagram is as long as it declares (more is
/// accepted under the broadcast group only); the declared length leaves room for
/// the inner header and an opcode; it is a multiple of four beyond the inner
/// header; the body length fits it with fewer than four bytes of padding; the
/// padding is zero.
pub open spec fn spec_decode(b: Seq<u8>) -> Result<FrameView, Field> {
    let declared = be16_at(b, 12) as int;
    let body_len = le32_at(b, 42) as int;
    let room = declared - INNER_LEN as int;
    if b.len() < OUTER_LEN as int {
        Err(Field::Length)
    } else if b.subrange(0, 4) != preamble().subrange(0, 4) {
        Err(Field::Magic)
    } else if b.subrange(4, 8) != preamble().subrange(4, 8) || b.subrange(14, 18) != selector() {
        Err(Field::Tag)
    } else if b.len() < OUTER_LEN as int + declared {
        Err(Field::Body)
    } else if b.len() > OUTER_LEN as int + declared && le32_at(b, 8) != GROUP_BROADCAST {
        Err(Field::Length)
    } else if room < 4 {
        Err(Field::Body)
    } else if room % 4 != 0 || body_len < 4 || body_len > room || room - body_len >= 4 {
        Err(Field::Padding)
    } else if b.subrange(46 + body_len, 46 + room) != zeros(room - body_len) {
        Err(Field::Padding)
    } else {
        Ok(
            FrameView {
                group: le32_at(b, 8),
                destination: endpoint_at(b, 18),
                source: endpoint_at(b, 26),
                control: le16_at(b, 34),
                counter: le16_at(b, 36),
                session_id: le32_at(b, 38),
                opcode: le32_at(b, 46),
                payload: b.subrange(50, 46 + body_len),
            },
        )
    }
}

/// Where each field of a frame stands in the fixed-size part of its datagram.
pub proof fn lemma_head_layout(f: FrameView)
    requires
        f.payload.len() <= MAX_PAYLOAD,
    ensures
        spec_head(f).len() == 50,
        spec_head(f).subrange(0, 4) == preamble().subrange(0, 4),
        spec_head(f).subrange(4, 8) == preamble().subrange(4, 8),
        spec_head(f).subrange(14, 18) == selector(),
        le32_at(spec_head(f), 8) == f.group,
        be16_at(spec_head(f), 12) == declared_len(f.payload.len() as int),
        endpoint_at(spec_head(f), 18) == f.destination,
        endpoint_at(spec_head(f), 26) == f.source,
        le16_at(spec_head(f), 34) == f.control,
        le16_at(spec_head(f), 36) == f.counter,
        le32_at(spec_head(f), 38) == f.session_id,
        le32_at(spec_head(f), 42) == 4 + f.payload.len(),
        le32_at(spec_head(f), 46) == f.opcode,
{
    reveal(spec_head);
    let h = spec_head(f);
    let declared = declared_len(f.payload.len() as int) as u16;
    let flat = seq![
        0x53u8, 0x4Du8, 0x41u8, 0x00u8, 0x00u8, 0x04u8, 0x02u8, 0xA0u8,
        byte32(f.group, 0), byte32(f.group, 1), byte32(f.group, 2), byte32(f.group, 3),
        hi8(declared), lo8(declared),
        0x00u8, 0x10u8, 0x00u8, 0x60u8,
        byte32(f.destination.address.low, 0), byte32(f.destination.address.low, 1),
        byte32(f.destination.address.low, 2), byte32(f.destination.address.low, 3),
        lo8(f.destination.address.high), hi8(f.destination.address.high),
        lo8(f.destination.susy_id), hi8(f.destination.susy_id),
        byte32(f.source.address.low, 0), byte32(f.source.address.low, 1),
        byte32(f.source.address.low, 2), byte32(f.source.address.low, 3),
        lo8(f.source.address.high), hi8(f.source.address.high),
        lo8(f.source.susy_id), hi8(f.source.susy_id),
        lo8(f.control), hi8(f.control),
        lo8(f.counter), hi8(f.counter),
        byte32(f.session_id, 0), byte32(f.session_id, 1), byte32(f.session_id, 2),
        byte32(f.session_id, 3),
        byte32((4 + f.payload.len()) as u32, 0), byte32((4 + f.payload.len()) as u32, 1),
        byte32((4 + f.payload.len()) as u32, 2), byte32((4 + f.payload.len()) as u32, 3),
        byte32(f.opcode, 0), byte32(f.opcode, 1), byte32(f.opcode, 2), byte32(f.opcode, 3),
    ];
    assert(h =~= flat);
    assert(h.subrange(0, 4) =~= preamble().subrange(0, 4));
    assert(h.subrange(4, 8) =~= preamble().subrange(4, 8));
    assert(h.subrange(14, 18) =~= selector());
    lemma_u32_bytes(f.group);
    lemma_u16_bytes(declared);
    lemma_u32_bytes(f.destination.address.low);
    lemma_u16_bytes(f.destination.address.high);
    lemma_u16_bytes(f.destination.susy_id);
    lemma_u32_bytes(f.source.address.low);
    lemma_u16_bytes(f.source.address.high);
    lemma_u16_bytes(f.source.susy_id);
    lemma_u16_bytes(f.control);
    lemma_u16_bytes(f.counter);
    lemma_u32_bytes(f.session_id);
    lemma_u32_bytes((4 + f.payload.len()) as u32);
    lemma_u32_bytes(f.opcode);
}

/// Decoding the datagram that encodes a frame gives the frame back: its
/// opcode, its counter, its payload and every other field.
pub proof fn lemma_decode_encode(f: FrameView)
    requires
        f.payload.len() <= MAX_PAYLOAD,
    ensures
        spec_decode(spec_encode(f)) == Ok::<FrameView, Field>(f),
{
    let n = f.payload.len() as int;
    let h = spec_head(f);
    let b = spec_encode(f);
    lemma_head_layout(f);
    assert(b.subrange(0, 4) =~= h.subrange(0, 4));
    assert(b.subrange(4, 8) =~= h.subrange(4, 8));
    assert(b.subrange(14, 18) =~= h.subrange(14, 18));
    assert(forall|i: int| 0 <= i < 50 ==> b[i] == h[i]);
    assert(b.subrange(50, 50 + n) =~= f.payload);
    assert(b.subrange(50 + n, 46 + padded(4 + n)) =~= zeros(padding_len(n)));
}

fn push_endpoint(out: &mut Vec<u8>, e: Endpoint)
    ensures
        final(out)@ == old(out)@ + endpoint_bytes(e),
{
    push_u32_le(out, e.address.low);
    push_u16_le(out, e.address.high);
    push_u16_le(out, e.susy_id);
    assert(out@ =~= old(out)@ + endpoint_bytes(e));
}

fn read_endpoint(bytes: &[u8], at: usize) -> (e: Endpoint)
    requires
        at + 8 <= bytes@.len(),
    ensures
        e == endpoint_at(bytes@, at as int),
{
    let _len: usize = bytes.len();
    Endpoint {
        address: DeviceAddress { low: read_u32_le(bytes, at), high: read_u16_le(bytes, at + 4) },
        susy_id: read_u16_le(bytes, at + 6),
    }
}

/// Tells whether `bytes` holds `expected` at offset `at`.
fn holds_at(bytes: &[u8], at: usize, expected: &[u8]) -> (same: bool)
    requires
        at + expected@.len() <= bytes@.len(),
    ensures
        same == (bytes@.subrange(at as int, at + expected@.len()) == expected@),
{
    let len: usize = bytes.len();
    let mut i: usize = 0;
    while i < expected.len()
        invariant
            i <= expected@.len(),
            at + expected@.len() <= bytes@.len() == len,
            forall|j: int| 0 <= j < i ==> bytes@[at + j] == expected@[j],
        decreases expected@.len() - i,
    {
        if bytes[at + i] != expected[i] {
            let ghost window = bytes@.subrange(at as int, at + expected@.len());
            assert(window[i as int] != expected@[i as int]);
            return false;
        }
        i += 1;
    }
    assert(bytes@.subrange(at as int, at + expected@.len()) =~= expected@);
    true
}

/// Tells whether the bytes of `bytes` from `from` up to `to` are all zero.
fn all_zero(bytes: &[u8], from: usize, to: usize) -> (same: bool)
    requires
        from <= to <= bytes@.len(),
    ensures
        same == (bytes@.subrange(from as int, to as int) == zeros(to - from)),
{
    let mut i: usize = from;
    while i < to
        invariant
            from <= i <= to <= bytes@.len(),
            forall|j: int| from <= j < i ==> bytes@[j] == 0,
        decreases to - i,
    {
        if bytes[i] != 0 {
            let ghost window = bytes@.subrange(from as int, to as int);
            assert(window[i - from] != zeros(to - from)[i - from]);
            return false;
        }
        i += 1;
    }
    assert(bytes@.subrange(from as int, to as int) =~= zeros(to - from));
    true
}

impl Frame {
    /// Encodes the frame as a datagram that is ready to send.
    ///
    /// Returns `None` exactly when the payload is longer than [`MAX_PAYLOAD`],
    /// so that the outer length field could not declare the frame.
    pub fn encode(&self) -> (out: Option<Vec<u8>>)
        ensures
            self.payload@.len() <= MAX_PAYLOAD <==> out.is_some(),
            out.is_some() ==> out.unwrap()@ == spec_encode(self@),
            out.is_some() ==> out.unwrap()@.len() == OUTER_LEN + declared_len(
                self.payload@.len() as int,
            ),
    {
        if self.payload.len() > MAX_PAYLOAD {
            return None;
        }
        let body_len: usize = 4 + self.payload.len();
        let padded_len: usize = (body_len + 3) / 4 * 4;
        let mut out: Vec<u8> = Vec::new();
        out.push(0x53);
        out.push(0x4D);
        out.push(0x41);
        out.push(0x00);
        out.push(0x00);
        out.push(0x04);
        out.push(0x02);
        out.push(0xA0);
        assert(out@ =~= preamble());
        push_u32_le(&mut out, self.group);
        push_u16_be(&mut out, (INNER_LEN + padded_len) as u16);
        out.push(0x00);
        out.push(0x10);
        out.push(0x00);
        out.push(0x60);
        proof {
            reveal(spec_head);
        }
        let ghost outer = out@;
        assert(outer =~= preamble() + le32(self.group) + be16(
            declared_len(self.payload@.len() as int) as u16,
        ) + selector());
        push_endpoint(&mut out, self.destination);
        push_endpoint(&mut out, self.source);
        push_u16_le(&mut out, self.control);
        push_u16_le(&mut out, self.counter);
        push_u32_le(&mut out, self.session_id);
        push_u32_le(&mut out, body_len as u32);
        push_u32_le(&mut out, self.opcode);
        let ghost head = out@;
        assert(head =~= spec_head(self@));
        let mut i: usize = 0;
        while i < self.payload.len()
            invariant
                i <= self.payload@.len(),
                out@ == head + self.payload@.subrange(0, i as int),
            decreases self.payload@.len() - i,
        {
            out.push(self.payload[i]);
            i += 1;
            assert(out@ =~= head + self.payload@.subrange(0, i as int));
        }
        assert(self.payload@.subrange(0, i as int) =~= self.payload@);
        let ghost body = out@;
        let mut k: usize = body_len;
        while k < padded_len
            invariant
                body_len <= k <= padded_len,
                out@ == body + zeros(k - body_len),
            decreases padded_len - k,
        {
            out.push(0);
            k += 1;
            assert(out@ =~= body + zeros(k - body_len));
        }
        assert(out@ =~= spec_encode(self@));
        Some(out)
    }

    /// Decodes a datagram: the frame it carries, or the first field that fails.
    pub fn decode(bytes: &[u8]) -> (result: Result<Frame, Field>)
        ensures
            match result {
                Ok(frame) => spec_decode(bytes@) == Ok::<FrameView, Field>(frame@),
                Err(field) => spec_decode(bytes@) == Err::<FrameView, Field>(field),
            },
    {
        let magic: [u8; 4] = [0x53, 0x4D, 0x41, 0x00];
        let tag: [u8; 4] = [0x00, 0x04, 0x02, 0xA0];
        let select: [u8; 4] = [0x00, 0x10, 0x00, 0x60];
        assert(magic@ =~= preamble().subrange(0, 4));
        assert(tag@ =~= preamble().subrange(4, 8));
        assert(select@ =~= selector());
        if bytes.len() < OUTER_LEN {
            return Err(Field::Length);
        }
        if !holds_at(bytes, 0, magic.as_slice()) {
            return Err(Field::Magic);
        }
        if !holds_at(bytes, 4, tag.as_slice()) || !holds_at(bytes, 14, select.as_slice()) {
            return Err(Field::Tag);
        }
        let declared: usize = read_u16_be(bytes, 12) as usize;
        if bytes.len() < OUTER_LEN + declared {
            return Err(Field::Body);
        }
        let group: u32 = read_u32_le(bytes, 8);
        if bytes.len() > OUTER_LEN + declared && group != GROUP_BROADCAST {
            return Err(Field::Length);
        }
        if declared < INNER_LEN + 4 {
            return Err(Field::Body);
        }
        let room: usize = declared - INNER_LEN;
        let body_len: usize = read_u32_le(bytes, 42) as usize;
        if room % 4 != 0 || body_len < 4 || body_len > room || room - body_len >= 4 {
            return Err(Field::Padding);
        }
        if !all_zero(bytes, 46 + body_len, 46 + room) {
            return Err(Field::Padding);
        }
        let mut payload: Vec<u8> = Vec::new();
        let end: usize = 46 + body_len;
        let mut i: usize = PAYLOAD_OFFSET;
        while i < end
            invariant
                50 <= i <= end <= bytes@.len(),
                payload@ == bytes@.subrange(50, i as int),
            decreases end - i,
        {
            payload.push(bytes[i]);
            i += 1;
            assert(payload@ =~= bytes@.subrange(50, i as int));
        }
        Ok(
            Frame {
                group,
                destination: read_endpoint(bytes, 18),
                source: read_endpoint(bytes, 26),
                control: read_u16_le(bytes, 34),
                counter: read_u16_le(bytes, 36),
                session_id: read_u32_le(bytes, 38),
                opcode: read_u32_le(bytes, 46),
                payload,
            },
        )
    }
}

} // verus!
