//! Byte-order codecs shared by the protocol engines and the firmware parser.
//!
//! The wire formats use little-endian integers (both protocol envelopes)
//! and big-endian integers (the firmware header). Each decoder and encoder
//! has a spec-level twin stated in plain arithmetic.

use vstd::prelude::*;

verus! {

/// Big-endian 16-bit value of two bytes.
pub open spec fn spec_u16_be(hi: u8, lo: u8) -> u16 {
    ((hi as int) * 0x100 + (lo as int)) as u16
}

/// Big-endian 32-bit value of four bytes.
pub open spec fn spec_u32_be(b0: u8, b1: u8, b2: u8, b3: u8) -> u32 {
    ((b0 as int) * 0x1000000 + (b1 as int) * 0x10000 + (b2 as int) * 0x100 + (b3 as int)) as u32
}

/// Decode a big-endian 16-bit integer.
pub fn u16_from_be(hi: u8, lo: u8) -> (r: u16)
    ensures
        r == spec_u16_be(hi, lo),
{
    (hi as u16) * 0x100 + (lo as u16)
}

/// Decode a big-endian 32-bit integer.
pub fn u32_from_be(b0: u8, b1: u8, b2: u8, b3: u8) -> (r: u32)
    ensures
        r == spec_u32_be(b0, b1, b2, b3),
{
    (b0 as u32) * 0x1000000 + (b1 as u32) * 0x10000 + (b2 as u32) * 0x100 + (b3 as u32)
}

/// Little-endian 16-bit value of two bytes.
pub open spec fn spec_u16_le(b0: u8, b1: u8) -> u16 {
    ((b0 as int) + (b1 as int) * 0x100) as u16
}

/// Little-endian 32-bit value of four bytes.
pub open spec fn spec_u32_le(b0: u8, b1: u8, b2: u8, b3: u8) -> u32 {
    ((b0 as int) + (b1 as int) * 0x100 + (b2 as int) * 0x10000 + (b3 as int) * 0x1000000) as u32
}

/// Decode a little-endian 16-bit integer.
pub fn u16_from_le(b0: u8, b1: u8) -> (r: u16)
    ensures
        r == spec_u16_le(b0, b1),
{
    (b0 as u16) + (b1 as u16) * 0x100
}

/// Decode a little-endian 32-bit integer.
pub fn u32_from_le(b0: u8, b1: u8, b2: u8, b3: u8) -> (r: u32)
    ensures
        r == spec_u32_le(b0, b1, b2, b3),
{
    (b0 as u32) + (b1 as u32) * 0x100 + (b2 as u32) * 0x10000 + (b3 as u32) * 0x1000000
}

/// Little-endian encoding of a 16-bit integer.
pub open spec fn spec_le16(v: u16) -> Seq<u8> {
    seq![((v as int) % 0x100) as u8, ((v as int) / 0x100) as u8]
}

/// Little-endian encoding of a 32-bit integer.
pub open spec fn spec_le32(v: u32) -> Seq<u8> {
    seq![
        ((v as int) % 0x100) as u8,
        ((v as int) / 0x100 % 0x100) as u8,
        ((v as int) / 0x10000 % 0x100) as u8,
        ((v as int) / 0x1000000) as u8,
    ]
}

/// Append the little-endian encoding of a 16-bit integer.
pub fn push_le16(out: &mut Vec<u8>, v: u16)
    ensures
        final(out)@ == old(out)@ + spec_le16(v),
{
    out.push((v % 0x100) as u8);
    out.push((v / 0x100) as u8);
    proof {
        assert(final(out)@ =~= old(out)@ + spec_le16(v));
    }
}

/// Append the little-endian encoding of a 32-bit integer.
pub fn push_le32(out: &mut Vec<u8>, v: u32)
    ensures
        final(out)@ == old(out)@ + spec_le32(v),
{
    out.push((v % 0x100) as u8);
    out.push((v / 0x100 % 0x100) as u8);
    out.push((v / 0x10000 % 0x100) as u8);
    out.push((v / 0x1000000) as u8);
    proof {
        assert(final(out)@ =~= old(out)@ + spec_le32(v));
    }
}

/// Law: decoding an encoded 16-bit integer gives the integer back.
pub proof fn lemma_le16_roundtrip(v: u16)
    ensures
        spec_u16_le(spec_le16(v)[0], spec_le16(v)[1]) == v,
{
}

/// Law: decoding an encoded 32-bit integer gives the integer back.
pub proof fn lemma_le32_roundtrip(v: u32)
    ensures
        spec_u32_le(spec_le32(v)[0], spec_le32(v)[1], spec_le32(v)[2], spec_le32(v)[3]) == v,
{
}

/// Two's-complement 32-bit value of a signed 32-bit integer.
pub open spec fn spec_u32_of_i32(v: i32) -> u32 {
    (if v >= 0 {
        v as int
    } else {
        v as int + 0x100000000
    }) as u32
}

/// Reinterpret a signed 32-bit integer as its two's-complement bits.
pub fn u32_of_i32(v: i32) -> (r: u32)
    ensures
        r == spec_u32_of_i32(v),
{
    if v >= 0 {
        v as u32
    } else {
        ((v as i64) + 0x100000000i64) as u32
    }
}

/// Sign extension of a byte.
pub open spec fn spec_i8_ext(b: u8) -> i32 {
    (if b < 0x80 {
        b as int
    } else {
        b as int - 0x100
    }) as i32
}

/// Signed value of a little-endian 16-bit field, kept at 16 bits.
pub open spec fn spec_i16_of(b0: u8, b1: u8) -> i16 {
    (if spec_u16_le(b0, b1) < 0x8000 {
        spec_u16_le(b0, b1) as int
    } else {
        spec_u16_le(b0, b1) as int - 0x10000
    }) as i16
}

/// Decode a little-endian 16-bit field as a signed 16-bit value.
pub fn i16_exact_from_le(b0: u8, b1: u8) -> (r: i16)
    ensures
        r == spec_i16_of(b0, b1),
{
    let raw = u16_from_le(b0, b1);
    if raw < 0x8000 {
        raw as i16
    } else {
        ((raw as i32) - 0x10000) as i16
    }
}

/// Sign extension of a little-endian 16-bit value.
pub open spec fn spec_i16_le(b0: u8, b1: u8) -> i32 {
    (if spec_u16_le(b0, b1) < 0x8000 {
        spec_u16_le(b0, b1) as int
    } else {
        spec_u16_le(b0, b1) as int - 0x10000
    }) as i32
}

/// Signed value of a little-endian 32-bit field.
pub open spec fn spec_i32_le(b0: u8, b1: u8, b2: u8, b3: u8) -> i32 {
    (if spec_u32_le(b0, b1, b2, b3) < 0x80000000 {
        spec_u32_le(b0, b1, b2, b3) as int
    } else {
        spec_u32_le(b0, b1, b2, b3) as int - 0x100000000
    }) as i32
}

/// Decode a byte as a signed 8-bit value, widened to 32 bits.
pub fn i8_ext_from(b: u8) -> (r: i32)
    ensures
        r == spec_i8_ext(b),
{
    if b < 0x80 {
        b as i32
    } else {
        (b as i32) - 0x100
    }
}

/// Decode a little-endian 16-bit field as a signed value, widened to 32 bits.
pub fn i16_from_le(b0: u8, b1: u8) -> (r: i32)
    ensures
        r == spec_i16_le(b0, b1),
{
    let raw = u16_from_le(b0, b1);
    if raw < 0x8000 {
        raw as i32
    } else {
        (raw as i32) - 0x10000
    }
}

/// Decode a little-endian 32-bit field as a signed value.
pub fn i32_from_le(b0: u8, b1: u8, b2: u8, b3: u8) -> (r: i32)
    ensures
        r == spec_i32_le(b0, b1, b2, b3),
{
    let raw = u32_from_le(b0, b1, b2, b3);
    if raw < 0x80000000 {
        raw as i32
    } else {
        ((raw as i64) - 0x100000000i64) as i32
    }
}

} // verus!
