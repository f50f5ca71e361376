//! Bit fields inside one register byte.
//!
//! A field is a run of `width` bits whose lowest bit is bit `lsb` of the
//! byte, bit 0 being the least significant.

use vstd::prelude::*;

verus! {

/// A byte with its low `width` bits set.
pub open spec fn low_mask(width: u8) -> u8
    recommends
        1 <= width <= 8,
{
    0xffu8 >> ((8 - width) as u8)
}

/// Whether `lsb` and `width` name a field that lies inside a byte.
pub open spec fn is_field(lsb: u8, width: u8) -> bool {
    1 <= width <= 8 && lsb <= 8 - width
}

/// The value of the field.
pub open spec fn field(byte: u8, lsb: u8, width: u8) -> u8
    recommends
        is_field(lsb, width),
{
    (byte >> lsb) & low_mask(width)
}

/// `byte` with the field set to the low `width` bits of `value`.
pub open spec fn with_field(byte: u8, lsb: u8, width: u8, value: u8) -> u8
    recommends
        is_field(lsb, width),
{
    (byte & !(low_mask(width) << lsb)) | ((value & low_mask(width)) << lsb)
}

/// The bit that stands for a flag.
pub open spec fn flag_bit(flag: bool) -> u8 {
    if flag {
        1
    } else {
        0
    }
}

/// Reads a field of `byte`.
pub fn get_field(byte: u8, lsb: u8, width: u8) -> (v: u8)
    requires
        is_field(lsb, width),
    ensures
        v == field(byte, lsb, width),
        v <= low_mask(width),
{
    let mask: u8 = 0xffu8 >> (8 - width);
    let v: u8 = (byte >> lsb) & mask;
    assert(v <= mask) by (bit_vector)
        requires
            v == (byte >> lsb) & mask,
    ;
    v
}

/// Writes the low `width` bits of `value` into a field of `byte` and leaves
/// every other bit as it was.
pub fn set_field(byte: u8, lsb: u8, width: u8, value: u8) -> (r: u8)
    requires
        is_field(lsb, width),
    ensures
        r == with_field(byte, lsb, width, value),
{
    let mask: u8 = 0xffu8 >> (8 - width);
    (byte & !(mask << lsb)) | ((value & mask) << lsb)
}

/// Reads a one-bit field of `byte` as a flag.
pub fn get_flag(byte: u8, bit: u8) -> (v: bool)
    requires
        bit < 8,
    ensures
        v == (field(byte, bit, 1) == 1),
{
    get_field(byte, bit, 1) == 1
}

/// Writes a flag into a one-bit field of `byte`.
pub fn set_flag(byte: u8, bit: u8, flag: bool) -> (r: u8)
    requires
        bit < 8,
    ensures
        r == with_field(byte, bit, 1, flag_bit(flag)),
{
    set_field(byte, bit, 1, if flag { 1 } else { 0 })
}

/// A field reads back what was written to it, cut to the field's width.
pub proof fn lemma_field_written(byte: u8, lsb: u8, width: u8, value: u8)
    requires
        is_field(lsb, width),
    ensures
        field(with_field(byte, lsb, width, value), lsb, width) == value & low_mask(width),
        value <= low_mask(width) ==> field(with_field(byte, lsb, width, value), lsb, width)
            == value,
{
    let m = low_mask(width);
    let s: u8 = (8 - width) as u8;
    assert((((byte & !(m << lsb)) | ((value & m) << lsb)) >> lsb) & m == value & m)
        by (bit_vector)
        requires
            1 <= width <= 8,
            lsb <= 8 - width,
            s == 8 - width,
            m == 0xffu8 >> s,
    ;
    assert(value <= m ==> value & m == value) by (bit_vector)
        requires
            1 <= width <= 8,
            s == 8 - width,
            m == 0xffu8 >> s,
    ;
}

/// Writing one field leaves every field that does not overlap it unchanged.
pub proof fn lemma_field_kept(byte: u8, lsb: u8, width: u8, value: u8, lsb2: u8, width2: u8)
    requires
        is_field(lsb, width),
        is_field(lsb2, width2),
        lsb2 + width2 <= lsb || lsb + width <= lsb2,
    ensures
        field(with_field(byte, lsb, width, value), lsb2, width2) == field(byte, lsb2, width2),
{
    let m = low_mask(width);
    let m2 = low_mask(width2);
    let s: u8 = (8 - width) as u8;
    let s2: u8 = (8 - width2) as u8;
    assert((((byte & !(m << lsb)) | ((value & m) << lsb)) >> lsb2) & m2 == (byte >> lsb2) & m2)
        by (bit_vector)
        requires
            1 <= width <= 8,
            lsb <= 8 - width,
            1 <= width2 <= 8,
            lsb2 <= 8 - width2,
            lsb2 + width2 <= lsb || lsb + width <= lsb2,
            s == 8 - width,
            s2 == 8 - width2,
            m == 0xffu8 >> s,
            m2 == 0xffu8 >> s2,
    ;
}

/// The masks of the eight field widths.
pub proof fn lemma_low_mask()
    ensures
        low_mask(1) == 0x01,
        low_mask(2) == 0x03,
        low_mask(3) == 0x07,
        low_mask(4) == 0x0f,
        low_mask(5) == 0x1f,
        low_mask(6) == 0x3f,
        low_mask(7) == 0x7f,
        low_mask(8) == 0xff,
{
    assert(0xffu8 >> 7u8 == 0x01u8 && 0xffu8 >> 6u8 == 0x03u8 && 0xffu8 >> 5u8 == 0x07u8 && 0xffu8
        >> 4u8 == 0x0fu8 && 0xffu8 >> 3u8 == 0x1fu8 && 0xffu8 >> 2u8 == 0x3fu8 && 0xffu8 >> 1u8
        == 0x7fu8 && 0xffu8 >> 0u8 == 0xffu8) by (bit_vector);
}

/// Every field of the zero byte is zero.
pub proof fn lemma_field_of_zero(lsb: u8, width: u8)
    requires
        is_field(lsb, width),
    ensures
        field(0, lsb, width) == 0,
{
    let m = low_mask(width);
    assert((0u8 >> lsb) & m == 0u8) by (bit_vector);
}

/// Packs eight one-bit values into a byte, the first into the most
/// significant bit.
pub fn pack_msb0(bits: [u8; 8]) -> (byte: u8)
    requires
        forall|i: int| 0 <= i < 8 ==> bits@[i] <= 1,
    ensures
        forall|i: int| 0 <= i < 8 ==> field(byte, (7 - i) as u8, 1) == #[trigger] bits@[i],
{
    let b0: u8 = bits[0];
    let b1: u8 = bits[1];
    let b2: u8 = bits[2];
    let b3: u8 = bits[3];
    let b4: u8 = bits[4];
    let b5: u8 = bits[5];
    let b6: u8 = bits[6];
    let b7: u8 = bits[7];
    let byte: u8 = (b0 << 7) | (b1 << 6) | (b2 << 5) | (b3 << 4) | (b4 << 3) | (b5 << 2) | (b6
        << 1) | b7;
    proof {
        let m = low_mask(1);
        lemma_low_mask();
        assert((byte >> 7u8) & m == b0 && (byte >> 6u8) & m == b1 && (byte >> 5u8) & m == b2 && (
        byte >> 4u8) & m == b3 && (byte >> 3u8) & m == b4 && (byte >> 2u8) & m == b5 && (byte
            >> 1u8) & m == b6 && (byte >> 0u8) & m == b7) by (bit_vector)
            requires
                m == 1u8,
                b0 <= 1 && b1 <= 1 && b2 <= 1 && b3 <= 1 && b4 <= 1 && b5 <= 1 && b6 <= 1 && b7
                    <= 1,
                byte == (b0 << 7u8) | (b1 << 6u8) | (b2 << 5u8) | (b3 << 4u8) | (b4 << 3u8) | (b5
                    << 2u8) | (b6 << 1u8) | b7,
        ;
        assert forall|i: int| 0 <= i < 8 implies field(byte, (7 - i) as u8, 1) == #[trigger] bits@[i] by {
            if i == 0 {
            } else if i == 1 {
            } else if i == 2 {
            } else if i == 3 {
            } else if i == 4 {
            } else if i == 5 {
            } else if i == 6 {
            } else {
            }
        }
    }
    byte
}

} // verus!
