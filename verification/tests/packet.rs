use i2c_telemetry::packet::frame::{assemble, frame};
use i2c_telemetry::packet::{DataPacket, FrameError, PacketType, SixAxisIMUPacket, TestPacket};

/// CRC-32 (IEEE 802.3, reflected), one bit at a time.
fn crc32_bitwise(data: &[u8]) -> u32 {
    let mut crc: u32 = 0xFFFF_FFFF;
    for byte in data {
        crc ^= u32::from(*byte);
        for _ in 0..8 {
            if crc & 1 == 1 {
                crc = (crc >> 1) ^ 0xEDB8_8320;
            } else {
                crc >>= 1;
            }
        }
    }
    !crc
}

fn pattern(len: usize) -> Vec<u8> {
    (0..len).map(|i| (i * 7 + 3) as u8).collect()
}

#[test]
fn test_serialize() {
    let test_packet = TestPacket {
        test: 0x080f, // crc in le 0xC89A8602
    };
    let packet = test_packet.serialize().unwrap();

    let test_valid = [0xb0, 0x0b, 0x02, 0x86, 0x9a, 0xc8, 0xFF, 0x2, 0x0f, 0x08, 0xa0, 0x0a];
    assert_eq!(packet.as_slice(), test_valid);
}

#[test]
fn test_packet_packs_little_endian() {
    assert_eq!(TestPacket { test: 0x080f }.into_bytes(), [0x0f, 0x08]);
    assert_eq!(TestPacket::from_bytes([0x0f, 0x08]), TestPacket { test: 0x080f });
    assert_eq!(TestPacket { test: 0xffff }.into_bytes(), [0xff, 0xff]);
    assert_eq!(TestPacket { test: 0 }.into_bytes(), [0, 0]);
}

#[test]
fn six_axis_packs_fields_in_order() {
    let p = SixAxisIMUPacket {
        acc_x: 0x0102,
        acc_y: 0x0304,
        acc_z: 0x0506,
        gyr_x: 0x0708,
        gyr_y: 0x090a,
        gyr_z: 0xfffe,
    };
    let bytes = p.into_bytes();
    assert_eq!(bytes, [0x02, 0x01, 0x04, 0x03, 0x06, 0x05, 0x08, 0x07, 0x0a, 0x09, 0xfe, 0xff]);
    assert_eq!(SixAxisIMUPacket::from_bytes(bytes), p);
}

#[test]
fn six_axis_frame_is_exact() {
    let p = SixAxisIMUPacket { acc_x: 1, acc_y: 2, acc_z: 3, gyr_x: 4, gyr_y: 5, gyr_z: 6 };
    let payload = [1u8, 0, 2, 0, 3, 0, 4, 0, 5, 0, 6, 0];
    let crc = crc32_bitwise(&payload);
    let mut expected = vec![0xb0, 0x0b];
    expected.extend_from_slice(&crc.to_le_bytes());
    expected.push(0x01);
    expected.push(12);
    expected.extend_from_slice(&payload);
    expected.extend_from_slice(&[0xa0, 0x0a]);
    assert_eq!(p.serialize(), Ok(expected));
    assert_eq!(p.get_type(), PacketType::Accelerometer);
}

#[test]
fn frame_length_is_payload_plus_ten() {
    for len in [0usize, 1, 2, 12, 100, 254, 255] {
        let data = pattern(len);
        let f = frame(PacketType::Test, &data).unwrap();
        assert_eq!(f.len(), 2 + 4 + 1 + 1 + len + 2);
    }
}

#[test]
fn frame_starts_and_ends_with_markers() {
    for len in [0usize, 5, 255] {
        let f = frame(PacketType::Accelerometer, &pattern(len)).unwrap();
        assert_eq!(&f[..2], &[0xb0, 0x0b]);
        assert_eq!(&f[f.len() - 2..], &[0xa0, 0x0a]);
    }
}

#[test]
fn frame_carries_tag_after_checksum() {
    let data = pattern(9);
    assert_eq!(frame(PacketType::Accelerometer, &data).unwrap()[6], 0x01);
    assert_eq!(frame(PacketType::Test, &data).unwrap()[6], 0xff);
    assert_eq!(TestPacket { test: 7 }.serialize().unwrap()[6], 0xff);
}

#[test]
fn frame_length_byte_and_payload() {
    for len in [0usize, 1, 17, 255] {
        let data = pattern(len);
        let f = frame(PacketType::Test, &data).unwrap();
        assert_eq!(usize::from(f[7]), len);
        assert_eq!(&f[8..8 + len], data.as_slice());
    }
}

#[test]
fn frame_checksum_is_crc32_of_payload() {
    for len in [0usize, 1, 2, 33, 255] {
        let data = pattern(len);
        let f = frame(PacketType::Test, &data).unwrap();
        assert_eq!(&f[2..6], &crc32_bitwise(&data).to_le_bytes());
    }
    assert_eq!(crc32_bitwise(&[0x0f, 0x08]), 0xC89A_8602);
    assert_eq!(crc32_bitwise(b"123456789"), 0xCBF4_3926);
    let f = frame(PacketType::Test, b"123456789").unwrap();
    assert_eq!(&f[2..6], &[0x26, 0x39, 0xf4, 0xcb]);
}

#[test]
fn empty_payload_frames() {
    let f = frame(PacketType::Test, &[]).unwrap();
    assert_eq!(f, vec![0xb0, 0x0b, 0, 0, 0, 0, 0xff, 0, 0xa0, 0x0a]);
}

#[test]
fn serialize_twice_gives_same_bytes() {
    let a = TestPacket { test: 0xbeef };
    let b = TestPacket { test: 0xbeef };
    assert_eq!(a.serialize(), b.serialize());
    assert_eq!(a.serialize(), a.serialize());
    let p = SixAxisIMUPacket { acc_x: 9, acc_y: 8, acc_z: 7, gyr_x: 6, gyr_y: 5, gyr_z: 4 };
    assert_eq!(p.serialize(), p.serialize());
}

#[test]
fn payload_of_255_bytes_fits_and_256_does_not() {
    let data = pattern(255);
    let f = frame(PacketType::Test, &data).unwrap();
    assert_eq!(f.len(), 265);
    assert_eq!(f[7], 255);
    assert_eq!(frame(PacketType::Test, &pattern(256)), Err(FrameError::PayloadTooLarge));
    assert_eq!(frame(PacketType::Test, &pattern(1000)), Err(FrameError::PayloadTooLarge));
}

#[test]
fn assemble_places_given_checksum() {
    let f = assemble(PacketType::Test, 0xC89A_8602, &[0x0f, 0x08]).unwrap();
    assert_eq!(f, vec![0xb0, 0x0b, 0x02, 0x86, 0x9a, 0xc8, 0xff, 0x02, 0x0f, 0x08, 0xa0, 0x0a]);
    let g = assemble(PacketType::Accelerometer, 0x0102_0304, &[]).unwrap();
    assert_eq!(g, vec![0xb0, 0x0b, 0x04, 0x03, 0x02, 0x01, 0x01, 0x00, 0xa0, 0x0a]);
    assert_eq!(
        assemble(PacketType::Accelerometer, 0, &pattern(256)),
        Err(FrameError::PayloadTooLarge)
    );
}

#[test]
fn packet_type_tags() {
    assert_eq!(PacketType::Accelerometer.wire_tag(), 0x01);
    assert_eq!(PacketType::Test.wire_tag(), 0xff);
    assert_eq!(u8::from(PacketType::Accelerometer), 0x01);
    assert_eq!(u8::from(PacketType::Test), 0xff);
    assert_ne!(PacketType::Accelerometer.wire_tag(), PacketType::Test.wire_tag());
}
