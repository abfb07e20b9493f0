//! Driver-request marshalling for the control-request port strategy.
//!
//! On hosts where port space is reached through a kernel driver rather than
//! a byte stream, one transfer is described by a structured request: a
//! direction flag, the port, the width, and — for writes — the value,
//! zero-extended into a single field four bytes wide. Only widths 1, 2 and 4
//! are representable in that field, so any other width is refused before a
//! request exists to issue. Building the request and decoding its result are
//! pure marshalling and are verified here; issuing it is the hosting
//! process's part.

use vstd::prelude::*;

use crate::codec::decode_le;
use crate::codec::encode_le;
use crate::codec::fits_width;
use crate::codec::le_bytes_of;
use crate::codec::le_value_of;
use crate::codec::valid_width;

verus! {

/// `v` reduced to its `w` low-order bytes, as a driver reply wider than the
/// requested width is cut back down.
pub open spec fn truncate_to_width(v: u32, w: int) -> u32 {
    if w == 1 {
        v & 0xff
    } else if w == 2 {
        v & 0xffff
    } else {
        v
    }
}

/// One port-transfer request to a kernel driver.
pub struct PortRequest {
    /// Direction: `true` for a write, `false` for a read.
    pub write: bool,
    /// The port to transfer at.
    pub port: u16,
    /// The transfer width in bytes: 1, 2 or 4.
    pub width: usize,
    /// For a write, the value to put on the port, zero-extended; zero for a
    /// read.
    pub value: u32,
}

impl PortRequest {
    /// Build the request for a read of `width` bytes from `port`.
    pub fn read_request(port: u16, width: usize) -> (r: PortRequest)
        requires
            valid_width(width as int),
        ensures
            !r.write,
            r.port == port,
            r.width == width,
            r.value == 0,
    {
        PortRequest { write: false, port, width, value: 0 }
    }

    /// Build the request for a write of `data` to `port`: the buffer's
    /// little-endian value is zero-extended into the request's value field.
    pub fn write_request(port: u16, data: &[u8]) -> (r: PortRequest)
        requires
            valid_width(data@.len() as int),
        ensures
            r.write,
            r.port == port,
            r.width == data@.len(),
            r.value == le_value_of(data@),
            fits_width(r.value, r.width as int),
    {
        PortRequest { write: true, port, width: data.len(), value: decode_le(data) }
    }

    /// Decode the driver's reply to a read request: the returned integer,
    /// truncated back down to the requested width, as little-endian bytes.
    pub fn response_bytes(&self, result: u32) -> (r: Vec<u8>)
        requires
            valid_width(self.width as int),
        ensures
            r@ == le_bytes_of(truncate_to_width(result, self.width as int), self.width as int),
            r@.len() == self.width,
    {
        let truncated: u32 = if self.width == 1 {
            result & 0xff
        } else if self.width == 2 {
            result & 0xffff
        } else {
            result
        };
        proof {
            let x = result;
            assert((x & 0xff) < 0x100 && (x & 0xffff) < 0x10000) by (bit_vector);
        }
        encode_le(truncated, self.width)
    }
}

} // verus!
