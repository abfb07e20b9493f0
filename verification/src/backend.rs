//! Port backend strategies.
//!
//! A [`PortBackend`] carries out one logical port transfer: read `width`
//! bytes from a port, or write a buffer of bytes to a port. The hosting
//! process selects exactly one strategy at startup (direct instructions, a
//! character-device window onto port space, or a driver control request) and
//! injects it into every port register. The backend owns whatever shared
//! handle the strategy needs and serializes transfers through it.
//!
//! [`EchoBackend`] is a verified in-memory strategy: a test double that
//! records the last `(port, bytes)` pair written and echoes it back on reads
//! from the same port.

use vstd::prelude::*;

use crate::codec::fits_width;
use crate::codec::le_bytes_of;
use crate::codec::le_value_of;
use crate::codec::lemma_le_round_trip;
use crate::codec::valid_width;

verus! {

/// One port-transfer execution strategy.
///
/// Every transfer moves exactly `width` bytes for a valid width (1, 2 or 4);
/// issuing any other width is a precondition violation, so no transfer with
/// an unsupported width can ever be attempted through this interface. An
/// implementation that cannot complete a transfer (a short read or write, an
/// unreachable device) must fail fatally rather than return a partial or
/// invented result.
///
/// Both operations take the backend exclusively (`&mut self`), so at most
/// one transfer is in flight per backend handle at any time: concurrent
/// callers must serialize through whatever lock guards the shared handle,
/// and a strategy holds that lock for the whole of one transfer, releasing
/// it on every exit path.
pub trait PortBackend: Sized {
    /// The last `(port, bytes)` pair written through this backend, if any —
    /// the backend's externally visible write history, one entry deep.
    ///
    /// The provided body is a placeholder that no verified strategy can
    /// keep: proving the transfer contracts forces an implementation to
    /// override it with its real model. It exists so that host strategies
    /// outside the proof boundary, whose obligations nothing checks anyway,
    /// can implement the interface without ghost items.
    open spec fn last_write(&self) -> Option<(u16, Seq<u8>)> {
        None
    }

    /// The bytes a read of `width` bytes from `port` returns in the current
    /// state. The provided body exists for the same reason as that of
    /// [`PortBackend::last_write`]; a verified strategy overrides it with
    /// its real model.
    open spec fn read_view(&self, port: u16, width: int) -> Seq<u8> {
        zero_bytes(width)
    }

    /// Read exactly `width` bytes from `port`.
    fn read_bytes(&mut self, port: u16, width: usize) -> (r: Vec<u8>)
        requires
            valid_width(width as int),
        ensures
            r@ == old(self).read_view(port, width as int),
            r@.len() == width,
            final(self).last_write() == old(self).last_write(),
    ;

    /// Write all of `data` to `port`.
    fn write_bytes(&mut self, port: u16, data: &[u8])
        requires
            valid_width(data@.len() as int),
        ensures
            final(self).last_write() == Some((port, data@)),
    ;
}

/// An all-zero byte sequence of length `w`.
pub open spec fn zero_bytes(w: int) -> Seq<u8> {
    Seq::new(w as nat, |i: int| 0u8)
}

/// A verified in-memory port backend: records the last write and echoes it
/// back on a read from the same port with the same width; any other read
/// returns zeroes. It stands in for a device during tests and proofs.
pub struct EchoBackend {
    /// The last `(port, bytes)` pair written, if any.
    pub last: Option<(u16, Vec<u8>)>,
}

impl EchoBackend {
    /// A fresh echo backend with no write recorded.
    pub fn new() -> (r: Self)
        ensures
            r.last_write() is None,
    {
        EchoBackend { last: None }
    }

    /// The recorded `(port, bytes)` pair, for inspection by callers.
    pub fn recorded(&self) -> (r: Option<(u16, Vec<u8>)>)
        ensures
            match r {
                None => self.last_write() is None,
                Some((p, b)) => self.last_write() == Some((p, b@)),
            },
    {
        match &self.last {
            None => None,
            Some((p, b)) => Some((*p, clone_bytes(b))),
        }
    }
}

/// Copy a byte vector element by element.
fn clone_bytes(b: &Vec<u8>) -> (r: Vec<u8>)
    ensures
        r@ == b@,
{
    let mut r: Vec<u8> = Vec::new();
    let mut i: usize = 0;
    while i < b.len()
        invariant
            i <= b@.len(),
            r@ == b@.subrange(0, i as int),
        decreases b@.len() - i,
    {
        r.push(b[i]);
        proof {
            assert(r@ =~= b@.subrange(0, i + 1));
        }
        i = i + 1;
    }
    proof {
        assert(r@ =~= b@);
    }
    r
}

impl PortBackend for EchoBackend {
    open spec fn last_write(&self) -> Option<(u16, Seq<u8>)> {
        match self.last {
            None => None,
            Some((p, b)) => Some((p, b@)),
        }
    }

    open spec fn read_view(&self, port: u16, width: int) -> Seq<u8> {
        match self.last {
            Some((p, b)) => if p == port && b@.len() == width {
                b@
            } else {
                zero_bytes(width)
            },
            None => zero_bytes(width),
        }
    }

    fn read_bytes(&mut self, port: u16, width: usize) -> (r: Vec<u8>) {
        match &self.last {
            Some((p, b)) => {
                if *p == port && b.len() == width {
                    return clone_bytes(b);
                }
            },
            None => {},
        }
        let mut r: Vec<u8> = Vec::new();
        let mut i: usize = 0;
        while i < width
            invariant
                i <= width,
                r@ == zero_bytes(i as int),
        decreases width - i,
        {
            r.push(0u8);
            proof {
                assert(r@ =~= zero_bytes(i + 1));
            }
            i = i + 1;
        }
        r
    }

    fn write_bytes(&mut self, port: u16, data: &[u8]) {
        let mut bytes: Vec<u8> = Vec::new();
        let mut i: usize = 0;
        while i < data.len()
            invariant
                i <= data@.len(),
                bytes@ == data@.subrange(0, i as int),
            decreases data@.len() - i,
        {
            bytes.push(data[i]);
            proof {
                assert(bytes@ =~= data@.subrange(0, i + 1));
            }
            i = i + 1;
        }
        proof {
            assert(bytes@ =~= data@);
        }
        self.last = Some((port, bytes));
    }
}

/// Law: against an echoing device, a read observes the last write back.
/// After the encoding of `v` in `w` bytes has been written to port `p`, a
/// read of `w` bytes from `p` decodes to exactly `v`.
pub proof fn lemma_echo_read_after_write(e: EchoBackend, p: u16, v: u32, w: int)
    requires
        valid_width(w),
        fits_width(v, w),
        e.last_write() == Some((p, le_bytes_of(v, w))),
    ensures
        le_value_of(e.read_view(p, w)) == v,
{
    lemma_le_round_trip(v, w);
}

} // verus!
