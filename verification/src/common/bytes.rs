//! Little-endian byte order for fixed-width integers.

use vstd::prelude::*;

verus! {

/// The two bytes of `v`, least significant first.
pub open spec fn le_bytes_u16(v: u16) -> Seq<u8> {
    seq![(v % 256) as u8, (v / 256) as u8]
}

/// The four bytes of `v`, least significant first.
pub open spec fn le_bytes_u32(v: u32) -> Seq<u8> {
    seq![
        (v % 256) as u8,
        (v / 256 % 256) as u8,
        (v / 65536 % 256) as u8,
        (v / 16777216) as u8,
    ]
}

/// The number whose little-endian bytes are `lo`, `hi`.
pub open spec fn le_value_u16(lo: u8, hi: u8) -> u16 {
    (lo + 256 * hi) as u16
}

/// The number whose little-endian bytes are `b0`, `b1`, `b2`.
pub open spec fn le_value_u24(b0: u8, b1: u8, b2: u8) -> u32 {
    (b0 + 256 * b1 + 65536 * b2) as u32
}

/// Splits `v` into its two bytes, least significant first.
pub fn u16_le_bytes(v: u16) -> (bytes: [u8; 2])
    ensures
        bytes@ == le_bytes_u16(v),
        le_value_u16(bytes[0], bytes[1]) == v,
{
    let lo: u8 = (v % 256) as u8;
    let hi: u8 = (v / 256) as u8;
    let bytes: [u8; 2] = [lo, hi];
    assert(bytes@ =~= le_bytes_u16(v));
    bytes
}

/// Joins two bytes, least significant first, into a number.
pub fn u16_from_le_bytes(lo: u8, hi: u8) -> (v: u16)
    ensures
        v == le_value_u16(lo, hi),
        le_bytes_u16(v) == seq![lo, hi],
{
    let l: u16 = lo as u16;
    let h: u16 = hi as u16;
    let v: u16 = h * 256 + l;
    assert(le_bytes_u16(v) =~= seq![lo, hi]);
    v
}

/// Joins three bytes, least significant first, into a 24-bit number.
pub fn u24_from_le_bytes(b0: u8, b1: u8, b2: u8) -> (v: u32)
    ensures
        v == le_value_u24(b0, b1, b2),
        v < 0x100_0000,
{
    let x0: u32 = b0 as u32;
    let x1: u32 = b1 as u32;
    let x2: u32 = b2 as u32;
    x2 * 65536 + x1 * 256 + x0
}

/// Splits `v` into its four bytes, least significant first.
pub fn u32_le_bytes(v: u32) -> (bytes: [u8; 4])
    ensures
        bytes@ == le_bytes_u32(v),
{
    let b0: u8 = (v % 256) as u8;
    let b1: u8 = (v / 256 % 256) as u8;
    let b2: u8 = (v / 65536 % 256) as u8;
    let b3: u8 = (v / 16777216) as u8;
    let bytes: [u8; 4] = [b0, b1, b2, b3];
    assert(bytes@ =~= le_bytes_u32(v));
    bytes
}

/// The number that the byte `b` stands for in two's complement.
pub open spec fn signed_value_u8(b: u8) -> i8 {
    if b < 128 {
        b as i8
    } else {
        (b - 256) as i8
    }
}

/// The number whose little-endian two's-complement bytes are `lo`, `hi`.
pub open spec fn le_value_i16(lo: u8, hi: u8) -> i16 {
    if hi < 128 {
        (lo + 256 * hi) as i16
    } else {
        (lo + 256 * hi - 65536) as i16
    }
}

/// Reads a byte as a signed number in two's complement.
pub fn i8_from_byte(b: u8) -> (v: i8)
    ensures
        v == signed_value_u8(b),
{
    if b < 128 {
        b as i8
    } else {
        let low: i8 = (b - 128) as i8;
        low - 127 - 1
    }
}

/// Joins two bytes, least significant first, into a signed number in two's
/// complement.
pub fn i16_from_le_bytes(lo: u8, hi: u8) -> (v: i16)
    ensures
        v == le_value_i16(lo, hi),
{
    let l: i16 = lo as i16;
    if hi < 128 {
        let h: i16 = hi as i16;
        h * 256 + l
    } else {
        let h: i16 = (hi - 128) as i16;
        let low: i16 = h * 256 + l;
        low - 32767 - 1
    }
}

/// The three low bytes of `v`, least significant first.
pub open spec fn le_bytes_u24(v: u32) -> Seq<u8> {
    seq![(v % 256) as u8, (v / 256 % 256) as u8, (v / 65536 % 256) as u8]
}

/// The byte that stands for `v` in two's complement.
pub open spec fn byte_of_i8(v: i8) -> u8 {
    if v >= 0 {
        v as u8
    } else {
        (v + 256) as u8
    }
}

/// The two bytes that stand for `v` in two's complement, least significant
/// first.
pub open spec fn le_bytes_i16(v: i16) -> Seq<u8> {
    if v >= 0 {
        le_bytes_u16(v as u16)
    } else {
        le_bytes_u16((v + 65536) as u16)
    }
}

/// Splits the low 24 bits of `v` into three bytes, least significant first.
pub fn u24_le_bytes(v: u32) -> (bytes: [u8; 3])
    ensures
        bytes@ == le_bytes_u24(v),
        le_value_u24(bytes[0], bytes[1], bytes[2]) == v % 0x100_0000,
{
    let b0: u8 = (v % 256) as u8;
    let b1: u8 = (v / 256 % 256) as u8;
    let b2: u8 = (v / 65536 % 256) as u8;
    let bytes: [u8; 3] = [b0, b1, b2];
    assert(bytes@ =~= le_bytes_u24(v));
    bytes
}

/// The byte that stands for `v` in two's complement.
pub fn i8_to_byte(v: i8) -> (b: u8)
    ensures
        b == byte_of_i8(v),
        signed_value_u8(b) == v,
{
    if v >= 0 {
        v as u8
    } else {
        let low: u8 = (v + 127 + 1) as u8;
        low + 128
    }
}

/// Splits `v` into its two two's-complement bytes, least significant first.
pub fn i16_le_bytes(v: i16) -> (bytes: [u8; 2])
    ensures
        bytes@ == le_bytes_i16(v),
        le_value_i16(bytes[0], bytes[1]) == v,
{
    if v >= 0 {
        u16_le_bytes(v as u16)
    } else {
        let low: u16 = (v + 32767 + 1) as u16;
        u16_le_bytes(low + 32768)
    }
}

} // verus!
