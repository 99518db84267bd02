//! Byte-level encodings shared by the device codecs.
//!
//! Two conventions coexist on the bus and are kept strictly apart:
//! a sign-magnitude encoding (a sign byte holding 0 or 1, and a 16-bit
//! magnitude), and a plain two's-complement big-endian 16-bit encoding.

use vstd::prelude::*;

verus! {

/// The signed value of two big-endian wire bytes, read as two's complement.
pub open spec fn be_i16(hi: u8, lo: u8) -> int {
    if hi >= 0x80 {
        hi * 256 + lo - 0x10000
    } else {
        hi * 256 + lo
    }
}

/// The unsigned value of two big-endian wire bytes.
pub open spec fn be_u16(hi: u8, lo: u8) -> int {
    hi * 256 + lo
}

/// The 16-bit two's-complement bit pattern of a signed value, in 0..0x10000.
pub open spec fn to_bits16(v: int) -> int {
    if v < 0 {
        v + 0x10000
    } else {
        v
    }
}

/// High byte of the two's-complement big-endian encoding of a signed value.
pub open spec fn be_hi(v: int) -> u8 {
    (to_bits16(v) / 256) as u8
}

/// Low byte of the two's-complement big-endian encoding of a signed value.
pub open spec fn be_lo(v: int) -> u8 {
    (to_bits16(v) % 256) as u8
}

/// Reads a big-endian two's-complement 16-bit value from two wire bytes.
pub fn decode_be_i16(hi: u8, lo: u8) -> (v: i16)
    ensures
        v as int == be_i16(hi, lo),
{
    let bits: u16 = (hi as u16) * 256 + (lo as u16);
    if bits >= 0x8000 {
        let down: u16 = 0xffff - bits;
        -(down as i16) - 1
    } else {
        bits as i16
    }
}

/// Splits a signed value into its big-endian two's-complement wire bytes.
pub fn encode_be_i16(v: i16) -> (r: (u8, u8))
    ensures
        r.0 == be_hi(v as int),
        r.1 == be_lo(v as int),
{
    let bits: u16 = if v >= 0 {
        v as u16
    } else {
        ((v as i32) + 0x10000) as u16
    };
    ((bits / 256) as u8, (bits % 256) as u8)
}

/// The sign byte of the sign-magnitude encoding: 1 for negative values, else 0.
pub open spec fn sign_of(v: int) -> u8 {
    if v < 0 {
        1u8
    } else {
        0u8
    }
}

/// The magnitude of the sign-magnitude encoding.
pub open spec fn magnitude_of(v: int) -> int {
    if v < 0 {
        -v
    } else {
        v
    }
}

/// The signed value a sign byte and a magnitude stand for.
pub open spec fn sign_magnitude_value(sign: u8, magnitude: int) -> int {
    if sign == 1 {
        -magnitude
    } else {
        magnitude
    }
}

/// Splits a signed value into a sign byte (0 or 1) and a 16-bit magnitude.
pub fn encode_sign_magnitude(v: i16) -> (r: (u8, u16))
    ensures
        r.0 == sign_of(v as int),
        r.1 as int == magnitude_of(v as int),
        r.0 <= 1,
{
    if v >= 0 {
        (0, v as u16)
    } else if v == -32768 {
        (1, 0x8000)
    } else {
        (1, (-v) as u16)
    }
}

/// Reads back the signed value of a sign byte and a magnitude.
pub fn decode_sign_magnitude(sign: u8, magnitude: u16) -> (v: i16)
    requires
        sign <= 1,
        sign == 0 ==> magnitude <= 0x7fff,
        sign == 1 ==> magnitude <= 0x8000,
    ensures
        v as int == sign_magnitude_value(sign, magnitude as int),
{
    if sign == 1 {
        if magnitude == 0x8000 {
            -32768
        } else {
            -(magnitude as i16)
        }
    } else {
        magnitude as i16
    }
}

/// Sign-magnitude encoding round-trips every signed 16-bit value exactly.
/// The only pair of distinct encodings that meet after decoding are the two
/// encodings of zero: (sign 1, magnitude 0) — a "negative zero" — stands for
/// the same value as (sign 0, magnitude 0). That is expected, not a defect.
pub proof fn lemma_sign_magnitude_round_trip(v: i16)
    ensures
        sign_magnitude_value(sign_of(v as int), magnitude_of(v as int)) == v as int,
{
}

/// The "negative zero" encoding decodes to plain zero.
pub proof fn lemma_negative_zero_decodes_to_zero()
    ensures
        sign_magnitude_value(1u8, 0) == sign_magnitude_value(0u8, 0),
{
}

/// A value forced into the given closed interval.
pub open spec fn clamp(v: int, lo: int, hi: int) -> int {
    if v < lo {
        lo
    } else if v > hi {
        hi
    } else {
        v
    }
}

/// Forces a 32-bit value into the signed 16-bit range.
pub fn clamp_to_i16(v: i32) -> (r: i16)
    ensures
        r as int == clamp(v as int, i16::MIN as int, i16::MAX as int),
{
    if v < -32768 {
        -32768
    } else if v > 32767 {
        32767
    } else {
        v as i16
    }
}

} // verus!
