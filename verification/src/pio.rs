//! Port registers.
//!
//! A [`Pio`] names a 16-bit port together with a value type that fixes the
//! transfer width (`u8`, `u16` or `u32`). Reading and writing delegate the
//! raw transfer to whichever [`PortBackend`] the hosting process injected,
//! and marshal the value through a little-endian buffer of exactly that
//! width.

use core::marker::PhantomData;

use vstd::prelude::*;

use crate::backend::PortBackend;
use crate::codec::decode_le;
use crate::codec::encode_le;
use crate::codec::le_bytes_of;
use crate::codec::le_value_of;
use crate::codec::valid_width;
use crate::codec::width_is_valid;

verus! {

/// Dispatch one port read of `width` bytes to the backend, refusing an
/// unsupported width before any transfer is attempted.
pub fn port_read<B: PortBackend>(backend: &mut B, port: u16, width: usize) -> (r: Option<
    Vec<u8>,
>)
    ensures
        valid_width(width as int) ==> match r {
            Some(b) => b@ == old(backend).read_view(port, width as int) && b@.len() == width
                && final(backend).last_write() == old(backend).last_write(),
            None => false,
        },
        !valid_width(width as int) ==> r is None && *final(backend) == *old(backend),
{
    if width_is_valid(width) {
        Some(backend.read_bytes(port, width))
    } else {
        None
    }
}

/// Dispatch one port write of `data` to the backend, refusing an unsupported
/// width before any transfer is attempted. Returns whether the transfer was
/// issued.
pub fn port_write<B: PortBackend>(backend: &mut B, port: u16, data: &[u8]) -> (r: bool)
    ensures
        r == valid_width(data@.len() as int),
        r ==> final(backend).last_write() == Some((port, data@)),
        !r ==> *final(backend) == *old(backend),
{
    if width_is_valid(data.len()) {
        backend.write_bytes(port, data);
        true
    } else {
        false
    }
}

/// A port register: a 16-bit port number and a width tag. Stateless and
/// freely copyable; constructing one has no side effect.
pub struct Pio<T> {
    /// The port this register addresses.
    pub port: u16,
    /// Marker fixing the value type, and with it the transfer width.
    pub value: PhantomData<T>,
}

impl<T> Clone for Pio<T> {
    fn clone(&self) -> (r: Self)
        ensures
            r.port == self.port,
    {
        Pio { port: self.port, value: PhantomData }
    }
}

impl<T> Copy for Pio<T> {

}

impl<T> Pio<T> {
    /// Create a port register for a given port.
    pub fn new(port: u16) -> (r: Self)
        ensures
            r.port == port,
    {
        Pio { port, value: PhantomData }
    }
}

impl Pio<u8> {
    /// Read one byte from the port through `backend`.
    pub fn read<B: PortBackend>(&self, backend: &mut B) -> (r: u8)
        ensures
            r == le_value_of(old(backend).read_view(self.port, 1)),
            final(backend).last_write() == old(backend).last_write(),
    {
        let buf = backend.read_bytes(self.port, 1);
        decode_le(buf.as_slice()) as u8
    }

    /// Write one byte to the port through `backend`.
    pub fn write<B: PortBackend>(&self, backend: &mut B, value: u8)
        ensures
            final(backend).last_write() == Some((self.port, le_bytes_of(value as u32, 1))),
    {
        let buf = encode_le(value as u32, 1);
        backend.write_bytes(self.port, buf.as_slice());
    }
}

impl Pio<u16> {
    /// Read two bytes from the port through `backend`, decoded little-endian.
    pub fn read<B: PortBackend>(&self, backend: &mut B) -> (r: u16)
        ensures
            r == le_value_of(old(backend).read_view(self.port, 2)),
            final(backend).last_write() == old(backend).last_write(),
    {
        let buf = backend.read_bytes(self.port, 2);
        decode_le(buf.as_slice()) as u16
    }

    /// Write `value` to the port through `backend` as two little-endian
    /// bytes.
    pub fn write<B: PortBackend>(&self, backend: &mut B, value: u16)
        ensures
            final(backend).last_write() == Some((self.port, le_bytes_of(value as u32, 2))),
    {
        let buf = encode_le(value as u32, 2);
        backend.write_bytes(self.port, buf.as_slice());
    }
}

impl Pio<u32> {
    /// Read four bytes from the port through `backend`, decoded
    /// little-endian.
    pub fn read<B: PortBackend>(&self, backend: &mut B) -> (r: u32)
        ensures
            r == le_value_of(old(backend).read_view(self.port, 4)),
            final(backend).last_write() == old(backend).last_write(),
    {
        let buf = backend.read_bytes(self.port, 4);
        decode_le(buf.as_slice())
    }

    /// Write `value` to the port through `backend` as four little-endian
    /// bytes.
    pub fn write<B: PortBackend>(&self, backend: &mut B, value: u32)
        ensures
            final(backend).last_write() == Some((self.port, le_bytes_of(value as u32, 4))),
    {
        let buf = encode_le(value, 4);
        backend.write_bytes(self.port, buf.as_slice());
    }
}

} // verus!
