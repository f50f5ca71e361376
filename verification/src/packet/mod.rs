//! Telemetry packets and their framing.

pub mod checksum;
pub mod frame;

use vstd::prelude::*;
use vstd::slice::slice_to_vec;
use crate::common::bytes::{le_bytes_u16, le_value_u16, u16_from_le_bytes, u16_le_bytes};
use self::frame::{frame, framed, outcome};

verus! {

/// The kind of telemetry a frame carries.
#[derive(Clone, Copy, PartialEq, Eq, Debug, Structural)]
pub enum PacketType {
    /// A six-axis inertial sample.
    Accelerometer,
    /// A test pattern.
    Test,
}

impl PacketType {
    /// The byte that stands for this kind on the wire.
    pub open spec fn tag(self) -> u8 {
        match self {
            PacketType::Accelerometer => 0x01,
            PacketType::Test => 0xFF,
        }
    }

    /// The byte that stands for this kind on the wire.
    pub fn wire_tag(self) -> (t: u8)
        ensures
            t == self.tag(),
    {
        match self {
            PacketType::Accelerometer => 0x01,
            PacketType::Test => 0xFF,
        }
    }
}

/// Two kinds of packet never share a wire tag.
pub proof fn lemma_tags_distinct(a: PacketType, b: PacketType)
    ensures
        a.tag() == b.tag() <==> a == b,
{
}

/// Why a payload could not be framed.
#[derive(Clone, Copy, PartialEq, Eq, Debug, Structural)]
pub enum FrameError {
    /// The packed payload is longer than the length byte can say.
    PayloadTooLarge,
}

impl From<PacketType> for u8 {
    /// The wire tag of `packet_type`, the same byte that a frame carries.
    fn from(packet_type: PacketType) -> (t: u8) {
        packet_type.wire_tag()
    }
}

impl vstd::std_specs::convert::FromSpecImpl<PacketType> for u8 {
    open spec fn obeys_from_spec() -> bool {
        true
    }

    open spec fn from_spec(packet_type: PacketType) -> u8 {
        packet_type.tag()
    }
}

/// A payload that can be framed: it packs to bytes and knows its kind.
///
/// A new kind of telemetry implements [`DataPacket::pack`] and
/// [`DataPacket::get_type`]; the framing is the same for all.
pub trait DataPacket {
    /// The packed payload: the fields in order, each least significant byte
    /// first, with nothing between them.
    spec fn packed(&self) -> Seq<u8>;

    /// The kind this payload travels as.
    spec fn packet_type(&self) -> PacketType;

    /// The kind this payload travels as.
    fn get_type(&self) -> (t: PacketType)
        ensures
            t == self.packet_type(),
    ;

    /// Packs the payload.
    fn pack(&self) -> (bytes: Vec<u8>)
        ensures
            bytes@ == self.packed(),
    ;

    /// The frame that carries this payload, or the refusal of a payload that
    /// packs to more than 255 bytes.
    fn serialize(&self) -> (r: Result<Vec<u8>, FrameError>)
        ensures
            outcome(r) == framed(self.packet_type(), self.packed()),
    {
        let data: Vec<u8> = self.pack();
        frame(self.get_type(), data.as_slice())
    }
}

/// One sample of a six-axis inertial unit: three accelerometer and three
/// gyroscope axes, raw.
#[derive(Clone, Copy, PartialEq, Eq, Debug, Structural)]
pub struct SixAxisIMUPacket {
    pub acc_x: u16,
    pub acc_y: u16,
    pub acc_z: u16,
    pub gyr_x: u16,
    pub gyr_y: u16,
    pub gyr_z: u16,
}

impl SixAxisIMUPacket {
    /// Packed size in bytes.
    pub const BYTE_SIZE: usize = 12;

    /// The twelve packed bytes.
    pub open spec fn bytes(self) -> Seq<u8> {
        le_bytes_u16(self.acc_x) + le_bytes_u16(self.acc_y) + le_bytes_u16(self.acc_z)
            + le_bytes_u16(self.gyr_x) + le_bytes_u16(self.gyr_y) + le_bytes_u16(self.gyr_z)
    }

    /// Packs the six axes, each least significant byte first.
    pub fn into_bytes(self) -> (out: [u8; 12])
        ensures
            out@ == self.bytes(),
    {
        let ax: [u8; 2] = u16_le_bytes(self.acc_x);
        let ay: [u8; 2] = u16_le_bytes(self.acc_y);
        let az: [u8; 2] = u16_le_bytes(self.acc_z);
        let gx: [u8; 2] = u16_le_bytes(self.gyr_x);
        let gy: [u8; 2] = u16_le_bytes(self.gyr_y);
        let gz: [u8; 2] = u16_le_bytes(self.gyr_z);
        let out: [u8; 12] = [
            ax[0],
            ax[1],
            ay[0],
            ay[1],
            az[0],
            az[1],
            gx[0],
            gx[1],
            gy[0],
            gy[1],
            gz[0],
            gz[1],
        ];
        assert(out@ =~= self.bytes());
        out
    }

    /// Reads the six axes back from their packed bytes.
    pub fn from_bytes(input: [u8; 12]) -> (p: Self)
        ensures
            p.bytes() == input@,
            p.acc_x == le_value_u16(input[0], input[1]),
            p.acc_y == le_value_u16(input[2], input[3]),
            p.acc_z == le_value_u16(input[4], input[5]),
            p.gyr_x == le_value_u16(input[6], input[7]),
            p.gyr_y == le_value_u16(input[8], input[9]),
            p.gyr_z == le_value_u16(input[10], input[11]),
    {
        let p = SixAxisIMUPacket {
            acc_x: u16_from_le_bytes(input[0], input[1]),
            acc_y: u16_from_le_bytes(input[2], input[3]),
            acc_z: u16_from_le_bytes(input[4], input[5]),
            gyr_x: u16_from_le_bytes(input[6], input[7]),
            gyr_y: u16_from_le_bytes(input[8], input[9]),
            gyr_z: u16_from_le_bytes(input[10], input[11]),
        };
        assert(p.bytes() =~= input@);
        p
    }
}

impl DataPacket for SixAxisIMUPacket {
    open spec fn packed(&self) -> Seq<u8> {
        self.bytes()
    }

    open spec fn packet_type(&self) -> PacketType {
        PacketType::Accelerometer
    }

    fn get_type(&self) -> (t: PacketType) {
        PacketType::Accelerometer
    }

    fn pack(&self) -> (bytes: Vec<u8>) {
        let data: [u8; 12] = self.into_bytes();
        slice_to_vec(data.as_slice())
    }
}

/// A payload of one 16-bit field, for trying out a link.
#[derive(Clone, Copy, PartialEq, Eq, Debug, Structural)]
pub struct TestPacket {
    pub test: u16,
}

impl TestPacket {
    /// Packed size in bytes.
    pub const BYTE_SIZE: usize = 2;

    /// The two packed bytes.
    pub open spec fn bytes(self) -> Seq<u8> {
        le_bytes_u16(self.test)
    }

    /// Packs the field, least significant byte first.
    pub fn into_bytes(self) -> (out: [u8; 2])
        ensures
            out@ == self.bytes(),
    {
        u16_le_bytes(self.test)
    }

    /// Reads the field back from its packed bytes.
    pub fn from_bytes(input: [u8; 2]) -> (p: Self)
        ensures
            p.bytes() == input@,
            p.test == le_value_u16(input[0], input[1]),
    {
        let p = TestPacket { test: u16_from_le_bytes(input[0], input[1]) };
        assert(p.bytes() =~= input@);
        p
    }
}

impl DataPacket for TestPacket {
    open spec fn packed(&self) -> Seq<u8> {
        self.bytes()
    }

    open spec fn packet_type(&self) -> PacketType {
        PacketType::Test
    }

    fn get_type(&self) -> (t: PacketType) {
        PacketType::Test
    }

    fn pack(&self) -> (bytes: Vec<u8>) {
        let data: [u8; 2] = self.into_bytes();
        slice_to_vec(data.as_slice())
    }
}

} // verus!
