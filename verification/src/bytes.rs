//! Little- and big-endian encodings of the multi-byte integers that appear
//! in USB descriptors (little-endian) and USB/IP headers (big-endian).

use vstd::prelude::*;

verus! {

/// Low byte of a 16-bit value.
pub open spec fn lo16(x: u16) -> u8 {
    (x % 256) as u8
}

/// High byte of a 16-bit value.
pub open spec fn hi16(x: u16) -> u8 {
    (x / 256) as u8
}

/// Little-endian encoding of a 16-bit value.
pub open spec fn spec_le16(x: u16) -> Seq<u8> {
    seq![lo16(x), hi16(x)]
}

/// Big-endian encoding of a 32-bit value.
pub open spec fn spec_be32(x: u32) -> Seq<u8> {
    seq![
        (x / 0x1000000) as u8,
        (x / 0x10000 % 256) as u8,
        (x / 0x100 % 256) as u8,
        (x % 256) as u8,
    ]
}

/// The unsigned 32-bit value with the same two's-complement bits as `x`.
pub open spec fn spec_u32_of_i32(x: i32) -> u32 {
    if x >= 0 {
        x as u32
    } else {
        (x + 0x100000000) as u32
    }
}

/// The signed 32-bit value with the same two's-complement bits as `x`.
pub open spec fn spec_i32_of_u32(x: u32) -> i32 {
    if x < 0x80000000 {
        x as i32
    } else {
        (x - 0x100000000) as i32
    }
}

/// Big-endian encoding of a signed 32-bit value (two's complement).
pub open spec fn spec_be_i32(x: i32) -> Seq<u8> {
    spec_be32(spec_u32_of_i32(x))
}

/// The 16-bit value encoded little-endian by two bytes.
pub open spec fn spec_u16_of_le(b0: u8, b1: u8) -> u16 {
    (b0 + b1 * 256) as u16
}

/// The 32-bit value encoded big-endian by four bytes.
pub open spec fn spec_u32_of_be(b0: u8, b1: u8, b2: u8, b3: u8) -> u32 {
    (b0 * 0x1000000 + b1 * 0x10000 + b2 * 0x100 + b3) as u32
}

/// Append the two little-endian bytes of a 16-bit value.
pub fn push_le16(out: &mut Vec<u8>, x: u16)
    ensures
        final(out)@ == old(out)@ + spec_le16(x),
{
    out.push((x % 256) as u8);
    out.push((x / 256) as u8);
    assert(out@ =~= old(out)@ + spec_le16(x));
}

/// Append the four big-endian bytes of a 32-bit value.
pub fn push_be32(out: &mut Vec<u8>, x: u32)
    ensures
        final(out)@ == old(out)@ + spec_be32(x),
{
    out.push((x / 0x1000000) as u8);
    out.push((x / 0x10000 % 256) as u8);
    out.push((x / 0x100 % 256) as u8);
    out.push((x % 256) as u8);
    assert(out@ =~= old(out)@ + spec_be32(x));
}

/// The unsigned 32-bit value with the same two's-complement bits as `x`.
pub fn u32_of_i32(x: i32) -> (r: u32)
    ensures
        r == spec_u32_of_i32(x),
{
    if x >= 0 {
        x as u32
    } else {
        ((x as i64) + 0x100000000i64) as u32
    }
}

/// The signed 32-bit value with the same two's-complement bits as `x`.
pub fn i32_of_u32(x: u32) -> (r: i32)
    ensures
        r == spec_i32_of_u32(x),
{
    if x < 0x80000000 {
        x as i32
    } else {
        ((x as i64) - 0x100000000i64) as i32
    }
}

/// Append the four big-endian bytes of a signed 32-bit value.
pub fn push_be_i32(out: &mut Vec<u8>, x: i32)
    ensures
        final(out)@ == old(out)@ + spec_be_i32(x),
{
    let u = u32_of_i32(x);
    push_be32(out, u);
}

/// The 16-bit value encoded little-endian by two bytes.
pub fn u16_of_le(b0: u8, b1: u8) -> (r: u16)
    ensures
        r == spec_u16_of_le(b0, b1),
{
    (b0 as u16) + (b1 as u16) * 256
}

/// The 32-bit value encoded big-endian by four bytes.
pub fn u32_of_be(b0: u8, b1: u8, b2: u8, b3: u8) -> (r: u32)
    ensures
        r == spec_u32_of_be(b0, b1, b2, b3),
{
    (b0 as u32) * 0x1000000 + (b1 as u32) * 0x10000 + (b2 as u32) * 0x100 + (b3 as u32)
}

/// Decoding the two little-endian bytes of a 16-bit value gives it back.
pub proof fn lemma_le16_roundtrip(x: u16)
    ensures
        spec_u16_of_le(lo16(x), hi16(x)) == x,
{
}

/// Decoding the four big-endian bytes of a 32-bit value gives it back.
pub proof fn lemma_be32_roundtrip(x: u32)
    ensures
        spec_u32_of_be(
            (x / 0x1000000) as u8,
            (x / 0x10000 % 256) as u8,
            (x / 0x100 % 256) as u8,
            (x % 256) as u8,
        ) == x,
{
    assert((x / 0x1000000) * 0x1000000 + (x / 0x10000 % 256) * 0x10000 + (x / 0x100 % 256) * 0x100
        + x % 256 == x) by (nonlinear_arith);
}

/// The signed/unsigned 32-bit reinterpretations invert each other.
pub proof fn lemma_i32_u32_roundtrip(x: i32)
    ensures
        spec_i32_of_u32(spec_u32_of_i32(x)) == x,
{
}


/// Little-endian encoding of a 32-bit value.
pub open spec fn spec_le32(x: u32) -> Seq<u8> {
    seq![
        (x % 256) as u8,
        (x / 0x100 % 256) as u8,
        (x / 0x10000 % 256) as u8,
        (x / 0x1000000) as u8,
    ]
}

/// Append the four little-endian bytes of a 32-bit value.
pub fn push_le32(out: &mut Vec<u8>, x: u32)
    ensures
        final(out)@ == old(out)@ + spec_le32(x),
{
    out.push((x % 256) as u8);
    out.push((x / 0x100 % 256) as u8);
    out.push((x / 0x10000 % 256) as u8);
    out.push((x / 0x1000000) as u8);
    assert(out@ =~= old(out)@ + spec_le32(x));
}

} // verus!
