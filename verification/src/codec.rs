//! Transfer widths and little-endian marshalling.
//!
//! Every port transfer moves exactly 1, 2 or 4 bytes; the bytes on the wire
//! are always the little-endian encoding of the register value, regardless of
//! host endianness. This module states that encoding mathematically and
//! proves it invertible.

use vstd::prelude::*;

verus! {

/// The transfer widths a port backend accepts: 1, 2 or 4 bytes.
pub open spec fn valid_width(w: int) -> bool {
    w == 1 || w == 2 || w == 4
}

/// Whether `v` is representable in `w` bytes (narrower widths use only the
/// low-order bytes of the carrier).
pub open spec fn fits_width(v: u32, w: int) -> bool {
    if w == 1 {
        v < 0x100
    } else if w == 2 {
        v < 0x10000
    } else {
        true
    }
}

/// The little-endian encoding of `v` in `w` bytes: byte `i` holds bits
/// `8*i .. 8*i + 8` of `v`.
pub open spec fn le_bytes_of(v: u32, w: int) -> Seq<u8>
    recommends
        valid_width(w),
{
    if w == 1 {
        seq![(v & 0xff) as u8]
    } else if w == 2 {
        seq![(v & 0xff) as u8, ((v >> 8) & 0xff) as u8]
    } else {
        seq![
            (v & 0xff) as u8,
            ((v >> 8) & 0xff) as u8,
            ((v >> 16) & 0xff) as u8,
            ((v >> 24) & 0xff) as u8,
        ]
    }
}

/// The value whose little-endian encoding is `b`: the inverse of
/// [`le_bytes_of`] for byte sequences of a valid width.
pub open spec fn le_value_of(b: Seq<u8>) -> u32
    recommends
        valid_width(b.len() as int),
{
    if b.len() == 1 {
        b[0] as u32
    } else if b.len() == 2 {
        (b[0] as u32) | ((b[1] as u32) << 8)
    } else {
        (b[0] as u32) | ((b[1] as u32) << 8) | ((b[2] as u32) << 16) | ((b[3] as u32) << 24)
    }
}

/// Law: decoding the little-endian encoding of a value yields that value
/// exactly, for every valid width and every value representable in it.
pub proof fn lemma_le_round_trip(v: u32, w: int)
    requires
        valid_width(w),
        fits_width(v, w),
    ensures
        le_bytes_of(v, w).len() == w,
        le_value_of(le_bytes_of(v, w)) == v,
{
    if w == 1 {
        assert((v & 0xff) as u8 as u32 == v) by (bit_vector)
            requires
                v < 0x100,
        ;
    } else if w == 2 {
        assert(((v & 0xff) as u8 as u32) | (((v >> 8) & 0xff) as u8 as u32) << 8 == v)
            by (bit_vector)
            requires
                v < 0x10000,
        ;
    } else {
        assert(((v & 0xff) as u8 as u32) | (((v >> 8) & 0xff) as u8 as u32) << 8 | (((v
            >> 16) & 0xff) as u8 as u32) << 16 | (((v >> 24) & 0xff) as u8 as u32) << 24
            == v) by (bit_vector);
    }
}

/// Law: encoding the value a byte sequence decodes to reproduces the
/// sequence, for every sequence of a valid width.
pub proof fn lemma_le_bytes_of_value(b: Seq<u8>)
    requires
        valid_width(b.len() as int),
    ensures
        fits_width(le_value_of(b), b.len() as int),
        le_bytes_of(le_value_of(b), b.len() as int) == b,
{
    if b.len() == 1 {
        let b0 = b[0];
        assert((b0 as u32) < 0x100 && ((b0 as u32) & 0xff) as u8 == b0) by (bit_vector);
        assert(le_bytes_of(le_value_of(b), 1) =~= b);
    } else if b.len() == 2 {
        let b0 = b[0];
        let b1 = b[1];
        let v = le_value_of(b);
        assert({
            let x = (b0 as u32) | ((b1 as u32) << 8);
            x < 0x10000 && (x & 0xff) as u8 == b0 && ((x >> 8) & 0xff) as u8 == b1
        }) by (bit_vector);
        assert(le_bytes_of(v, 2) =~= b);
    } else {
        let b0 = b[0];
        let b1 = b[1];
        let b2 = b[2];
        let b3 = b[3];
        let v = le_value_of(b);
        assert({
            let x = (b0 as u32) | ((b1 as u32) << 8) | ((b2 as u32) << 16) | ((b3 as u32) << 24);
            (x & 0xff) as u8 == b0 && ((x >> 8) & 0xff) as u8 == b1 && ((x >> 16) & 0xff) as u8
                == b2 && ((x >> 24) & 0xff) as u8 == b3
        }) by (bit_vector);
        assert(le_bytes_of(v, 4) =~= b);
    }
}

/// Runtime check for the width precondition of the port backends.
pub fn width_is_valid(width: usize) -> (r: bool)
    ensures
        r == valid_width(width as int),
{
    width == 1 || width == 2 || width == 4
}

/// Encode `value` as `width` little-endian bytes.
pub fn encode_le(value: u32, width: usize) -> (r: Vec<u8>)
    requires
        valid_width(width as int),
        fits_width(value, width as int),
    ensures
        r@ == le_bytes_of(value, width as int),
        r@.len() == width,
{
    let mut r: Vec<u8> = Vec::new();
    r.push((value & 0xff) as u8);
    if width >= 2 {
        r.push(((value >> 8) & 0xff) as u8);
    }
    if width == 4 {
        r.push(((value >> 16) & 0xff) as u8);
        r.push(((value >> 24) & 0xff) as u8);
    }
    proof {
        assert(r@ =~= le_bytes_of(value, width as int));
    }
    r
}

/// Decode a buffer of a valid width as a little-endian value.
pub fn decode_le(bytes: &[u8]) -> (r: u32)
    requires
        valid_width(bytes@.len() as int),
    ensures
        r == le_value_of(bytes@),
        fits_width(r, bytes@.len() as int),
{
    if bytes.len() == 1 {
        let r = bytes[0] as u32;
        proof {
            let b0 = bytes@[0];
            assert((b0 as u32) < 0x100) by (bit_vector);
        }
        r
    } else if bytes.len() == 2 {
        let r = (bytes[0] as u32) | ((bytes[1] as u32) << 8);
        proof {
            let b0 = bytes@[0];
            let b1 = bytes@[1];
            assert((b0 as u32) | ((b1 as u32) << 8) < 0x10000) by (bit_vector);
        }
        r
    } else {
        (bytes[0] as u32) | ((bytes[1] as u32) << 8) | ((bytes[2] as u32) << 16) | ((bytes[3]
            as u32) << 24)
    }
}

} // verus!
