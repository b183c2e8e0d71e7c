//! Integers as little-endian bytes.

use vstd::prelude::*;

verus! {

/// The two bytes of a `u16`, low byte first.
pub open spec fn le_u16(n: u16) -> Seq<u8> {
    seq![(n % 256) as u8, (n / 256) as u8]
}

/// The four bytes of a `u32`, low byte first.
pub open spec fn le_u32(n: u32) -> Seq<u8> {
    seq![
        (n % 256) as u8,
        (n / 256 % 256) as u8,
        (n / 65536 % 256) as u8,
        (n / 16777216) as u8,
    ]
}

/// The `u16` with the same sixteen bits as an `i16`.
pub open spec fn bits_of_i16(n: i16) -> u16 {
    if n >= 0 {
        n as u16
    } else {
        (n + 65536) as u16
    }
}

/// The two bytes of an `i16` in two's complement, low byte first.
pub open spec fn le_i16(n: i16) -> Seq<u8> {
    le_u16(bits_of_i16(n))
}

/// The `u16` that two bytes stand for, low byte first.
pub open spec fn u16_of_le(b0: u8, b1: u8) -> u16 {
    (b0 + 256 * b1) as u16
}

/// The `u32` that four bytes stand for, low byte first.
pub open spec fn u32_of_le(b0: u8, b1: u8, b2: u8, b3: u8) -> u32 {
    (b0 + 256 * b1 + 65536 * b2 + 16777216 * b3) as u32
}

/// The `i16` that two bytes stand for in two's complement, low byte first.
pub open spec fn i16_of_le(b0: u8, b1: u8) -> i16 {
    if b1 < 128 {
        (b0 + 256 * b1) as i16
    } else {
        (b0 + 256 * b1 - 65536) as i16
    }
}

/// Appends the two bytes of a `u16`, low byte first.
pub fn push_u16(out: &mut Vec<u8>, n: u16)
    ensures
        final(out)@ == old(out)@ + le_u16(n),
{
    assert((n & 0xff) == n % 256 && (n >> 8) == n / 256 && (n >> 8) < 256) by (bit_vector);
    out.push((n & 0xff) as u8);
    out.push((n >> 8) as u8);
}

/// Appends the four bytes of a `u32`, low byte first.
pub fn push_u32(out: &mut Vec<u8>, n: u32)
    ensures
        final(out)@ == old(out)@ + le_u32(n),
{
    assert((n & 0xff) == n % 256 && ((n >> 8) & 0xff) == n / 256 % 256 && ((n >> 16) & 0xff) == n
        / 65536 % 256 && (n >> 24) == n / 16777216 && (n >> 24) < 256) by (bit_vector);
    out.push((n & 0xff) as u8);
    out.push(((n >> 8) & 0xff) as u8);
    out.push(((n >> 16) & 0xff) as u8);
    out.push((n >> 24) as u8);
}

/// Appends the two bytes of an `i16` in two's complement, low byte first.
pub fn push_i16(out: &mut Vec<u8>, n: i16)
    ensures
        final(out)@ == old(out)@ + le_i16(n),
{
    let bits: u16 = if n >= 0 {
        n as u16
    } else {
        (n as i32 + 65536) as u16
    };
    push_u16(out, bits);
}

/// Reads a `u16` from two bytes, low byte first.
pub fn read_u16(b0: u8, b1: u8) -> (n: u16)
    ensures
        n == u16_of_le(b0, b1),
{
    b0 as u16 + 256 * (b1 as u16)
}

/// Reads a `u32` from four bytes, low byte first.
pub fn read_u32(b0: u8, b1: u8, b2: u8, b3: u8) -> (n: u32)
    ensures
        n == u32_of_le(b0, b1, b2, b3),
{
    b0 as u32 + 256 * (b1 as u32) + 65536 * (b2 as u32) + 16777216 * (b3 as u32)
}

/// Reads an `i16` from two bytes in two's complement, low byte first.
pub fn read_i16(b0: u8, b1: u8) -> (n: i16)
    ensures
        n == i16_of_le(b0, b1),
{
    let bits: i32 = b0 as i32 + 256 * (b1 as i32);
    if b1 < 128 {
        bits as i16
    } else {
        (bits - 65536) as i16
    }
}

/// Reading the bytes of an integer gives the integer back.
pub proof fn lemma_le_round_trip(a: u16, b: u32, c: i16)
    ensures
        u16_of_le(le_u16(a)[0], le_u16(a)[1]) == a,
        u32_of_le(le_u32(b)[0], le_u32(b)[1], le_u32(b)[2], le_u32(b)[3]) == b,
        i16_of_le(le_i16(c)[0], le_i16(c)[1]) == c,
{
}

} // verus!
