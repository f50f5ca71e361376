//! The wire frame: markers, checksum, tag, length and payload.
//!
//! ```text
//! B0 0B | crc32 (4, little-endian) | tag | len | payload (len) | A0 0A
//! ```

use vstd::prelude::*;
use crate::common::bytes::{le_bytes_u32, u32_le_bytes};
use super::checksum::{crc32, crc32_ieee};
use super::{DataPacket, FrameError, PacketType};

verus! {

/// First byte of every frame.
pub const BEGIN_PACKET_0: u8 = 0xb0;

/// Second byte of every frame.
pub const BEGIN_PACKET_1: u8 = 0x0b;

/// Last but one byte of every frame.
pub const END_PACKET_0: u8 = 0xa0;

/// Last byte of every frame.
pub const END_PACKET_1: u8 = 0x0a;

/// The longest payload a frame can carry: its length travels in one byte.
pub const MAX_PAYLOAD_LEN: usize = 255;

/// Bytes a frame adds around its payload.
pub const FRAME_OVERHEAD: usize = 10;

/// Offset of the checksum field.
pub const CHECKSUM_OFFSET: usize = 2;

/// Offset of the type tag.
pub const TYPE_OFFSET: usize = 6;

/// Offset of the length byte.
pub const LENGTH_OFFSET: usize = 7;

/// Offset of the first payload byte.
pub const PAYLOAD_OFFSET: usize = 8;

/// The marker that opens a frame.
pub open spec fn begin_marker() -> Seq<u8> {
    seq![BEGIN_PACKET_0, BEGIN_PACKET_1]
}

/// The marker that closes a frame.
pub open spec fn end_marker() -> Seq<u8> {
    seq![END_PACKET_0, END_PACKET_1]
}

/// The frame around `payload`, for a payload that fits the length byte.
pub open spec fn frame_bytes(tag: u8, checksum: u32, payload: Seq<u8>) -> Seq<u8>
    recommends
        payload.len() <= MAX_PAYLOAD_LEN,
{
    begin_marker() + le_bytes_u32(checksum) + seq![tag, payload.len() as u8] + payload
        + end_marker()
}

/// What assembling a frame yields: the frame, or the refusal of a payload
/// whose length no single byte can hold.
pub open spec fn assembled(packet_type: PacketType, checksum: u32, payload: Seq<u8>) -> Result<
    Seq<u8>,
    FrameError,
> {
    if payload.len() <= MAX_PAYLOAD_LEN {
        Ok(frame_bytes(packet_type.tag(), checksum, payload))
    } else {
        Err(FrameError::PayloadTooLarge)
    }
}

/// What framing `payload` yields: the assembled frame with the payload's own
/// CRC-32 in the checksum field.
pub open spec fn framed(packet_type: PacketType, payload: Seq<u8>) -> Result<Seq<u8>, FrameError> {
    assembled(packet_type, crc32_ieee(payload), payload)
}

/// An outcome of framing with the bytes taken as a sequence.
pub open spec fn outcome(r: Result<Vec<u8>, FrameError>) -> Result<Seq<u8>, FrameError> {
    match r {
        Ok(bytes) => Ok(bytes@),
        Err(e) => Err(e),
    }
}

/// Builds the frame around `data` with `checksum` in the checksum field.
///
/// A payload longer than [`MAX_PAYLOAD_LEN`] is refused; the length byte is
/// never truncated.
pub fn assemble(packet_type: PacketType, checksum: u32, data: &[u8]) -> (r: Result<
    Vec<u8>,
    FrameError,
>)
    ensures
        outcome(r) == assembled(packet_type, checksum, data@),
{
    let n: usize = data.len();
    if n > MAX_PAYLOAD_LEN {
        return Err(FrameError::PayloadTooLarge);
    }
    let sum: [u8; 4] = u32_le_bytes(checksum);
    let mut out: Vec<u8> = Vec::with_capacity(n + FRAME_OVERHEAD);
    out.push(BEGIN_PACKET_0);
    out.push(BEGIN_PACKET_1);
    out.push(sum[0]);
    out.push(sum[1]);
    out.push(sum[2]);
    out.push(sum[3]);
    out.push(packet_type.wire_tag());
    out.push(n as u8);
    let ghost head: Seq<u8> = begin_marker() + le_bytes_u32(checksum) + seq![
        packet_type.tag(),
        n as u8,
    ];
    assert(out@ =~= head);
    let mut i: usize = 0;
    while i < n
        invariant
            n == data@.len(),
            i <= n,
            out@ == head + data@.subrange(0, i as int),
        decreases n - i,
    {
        out.push(data[i]);
        i += 1;
        assert(out@ =~= head + data@.subrange(0, i as int));
    }
    assert(data@.subrange(0, n as int) =~= data@);
    out.push(END_PACKET_0);
    out.push(END_PACKET_1);
    assert(out@ =~= frame_bytes(packet_type.tag(), checksum, data@));
    Ok(out)
}

/// Frames `data`: computes its CRC-32 and builds the frame around it.
pub fn frame(packet_type: PacketType, data: &[u8]) -> (r: Result<Vec<u8>, FrameError>)
    ensures
        outcome(r) == framed(packet_type, data@),
{
    let checksum: u32 = crc32(data);
    assemble(packet_type, checksum, data)
}

/// A frame is its payload and ten bytes more: two markers of two bytes, four
/// bytes of checksum, the tag and the length.
pub proof fn lemma_frame_len(tag: u8, checksum: u32, payload: Seq<u8>)
    ensures
        frame_bytes(tag, checksum, payload).len() == begin_marker().len() + 4 + 1 + 1
            + payload.len() + end_marker().len(),
        frame_bytes(tag, checksum, payload).len() == payload.len() + FRAME_OVERHEAD,
{
}

/// A frame opens with the begin marker and closes with the end marker.
pub proof fn lemma_frame_markers(tag: u8, checksum: u32, payload: Seq<u8>)
    ensures
        frame_bytes(tag, checksum, payload).subrange(0, 2) == begin_marker(),
        frame_bytes(tag, checksum, payload).subrange(
            PAYLOAD_OFFSET + payload.len(),
            PAYLOAD_OFFSET + payload.len() + 2,
        ) == end_marker(),
        frame_bytes(tag, checksum, payload)[0] == BEGIN_PACKET_0,
        frame_bytes(tag, checksum, payload)[1] == BEGIN_PACKET_1,
        frame_bytes(tag, checksum, payload)[frame_bytes(tag, checksum, payload).len() - 2]
            == END_PACKET_0,
        frame_bytes(tag, checksum, payload)[frame_bytes(tag, checksum, payload).len() - 1]
            == END_PACKET_1,
{
    let f = frame_bytes(tag, checksum, payload);
    assert(f.subrange(0, 2) =~= begin_marker());
    assert(f.subrange(PAYLOAD_OFFSET + payload.len(), PAYLOAD_OFFSET + payload.len() + 2)
        =~= end_marker());
}

/// The byte after the markers and the checksum is the tag, and the frame of
/// a packet kind carries that kind's tag there.
pub proof fn lemma_frame_tag(packet_type: PacketType, checksum: u32, payload: Seq<u8>)
    requires
        payload.len() <= MAX_PAYLOAD_LEN,
    ensures
        assembled(packet_type, checksum, payload) == Ok::<Seq<u8>, FrameError>(
            frame_bytes(packet_type.tag(), checksum, payload),
        ),
        frame_bytes(packet_type.tag(), checksum, payload)[TYPE_OFFSET as int]
            == packet_type.tag(),
{
}

/// The length byte says exactly how many payload bytes follow it, and those
/// bytes are the payload.
pub proof fn lemma_frame_length_byte(tag: u8, checksum: u32, payload: Seq<u8>)
    requires
        payload.len() <= MAX_PAYLOAD_LEN,
    ensures
        frame_bytes(tag, checksum, payload)[LENGTH_OFFSET as int] == payload.len(),
        frame_bytes(tag, checksum, payload).subrange(
            PAYLOAD_OFFSET as int,
            PAYLOAD_OFFSET + payload.len(),
        ) == payload,
{
    let f = frame_bytes(tag, checksum, payload);
    assert(f.subrange(PAYLOAD_OFFSET as int, PAYLOAD_OFFSET + payload.len()) =~= payload);
}

/// The checksum field of a framed payload holds the CRC-32 of the payload
/// bytes alone, least significant byte first.
pub proof fn lemma_frame_checksum(packet_type: PacketType, payload: Seq<u8>)
    requires
        payload.len() <= MAX_PAYLOAD_LEN,
    ensures
        framed(packet_type, payload) matches Ok(f) && f.subrange(
            CHECKSUM_OFFSET as int,
            TYPE_OFFSET as int,
        ) == le_bytes_u32(crc32_ieee(payload)),
{
    let f = frame_bytes(packet_type.tag(), crc32_ieee(payload), payload);
    assert(f.subrange(CHECKSUM_OFFSET as int, TYPE_OFFSET as int) =~= le_bytes_u32(
        crc32_ieee(payload),
    ));
}

/// Framing succeeds exactly on payloads of at most 255 bytes; every longer
/// one is refused as too large.
pub proof fn lemma_framed_iff_fits(packet_type: PacketType, payload: Seq<u8>)
    ensures
        framed(packet_type, payload) is Ok <==> payload.len() <= MAX_PAYLOAD_LEN,
        framed(packet_type, payload) is Err ==> framed(packet_type, payload) == Err::<
            Seq<u8>,
            FrameError,
        >(FrameError::PayloadTooLarge),
{
}

/// Serialising is a function of the payload's value: two payloads that pack
/// to the same bytes under the same kind get the same outcome, byte for
/// byte.
pub proof fn lemma_serialize_deterministic<P: DataPacket>(
    p: P,
    q: P,
    a: Result<Vec<u8>, FrameError>,
    b: Result<Vec<u8>, FrameError>,
)
    requires
        p.packed() == q.packed(),
        p.packet_type() == q.packet_type(),
        outcome(a) == framed(p.packet_type(), p.packed()),
        outcome(b) == framed(q.packet_type(), q.packed()),
    ensures
        outcome(a) == outcome(b),
        a matches Ok(x) ==> b matches Ok(y) && x@ == y@,
{
}

/// The frame of any payload that fits: its length, markers, tag, length byte,
/// checksum and payload bytes, each at its place.
pub proof fn lemma_serialize_layout<P: DataPacket>(p: P)
    requires
        p.packed().len() <= MAX_PAYLOAD_LEN,
    ensures
        framed(p.packet_type(), p.packed()) matches Ok(f) && {
            &&& f.len() == 2 + 4 + 1 + 1 + p.packed().len() + 2
            &&& f.subrange(0, 2) == begin_marker()
            &&& f.subrange(f.len() - 2, f.len() as int) == end_marker()
            &&& f.subrange(CHECKSUM_OFFSET as int, TYPE_OFFSET as int) == le_bytes_u32(
                crc32_ieee(p.packed()),
            )
            &&& f[TYPE_OFFSET as int] == p.packet_type().tag()
            &&& f[LENGTH_OFFSET as int] == p.packed().len()
            &&& f.subrange(PAYLOAD_OFFSET as int, f.len() - 2) == p.packed()
        },
{
    let payload = p.packed();
    let tag = p.packet_type().tag();
    let sum = crc32_ieee(payload);
    lemma_frame_len(tag, sum, payload);
    lemma_frame_markers(tag, sum, payload);
    lemma_frame_length_byte(tag, sum, payload);
    lemma_frame_checksum(p.packet_type(), payload);
}

} // verus!
