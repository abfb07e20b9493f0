//! The register access contract.
//!
//! Every register kind offers the same two operations: read the current
//! value, write a new one. Each call corresponds to exactly one
//! backend-mediated or memory-mediated transfer; nothing is cached, retried
//! or batched at this layer.

use vstd::prelude::*;

verus! {

/// A readable and writable register.
///
/// A register may start in an unreadable state (a memory-mapped register
/// constructed without an initial value has no defined contents); writing
/// always makes it readable, and reading returns exactly the stored value.
pub trait Io: Sized {
    /// The value type this register transfers.
    type Value;

    /// Whether the register's contents are defined, so that reading is
    /// permitted.
    spec fn readable(&self) -> bool;

    /// The value the register currently holds.
    spec fn stored(&self) -> Self::Value;

    /// Read the register. One transfer; no caching.
    fn read(&self) -> (r: Self::Value)
        requires
            self.readable(),
        ensures
            r == self.stored(),
    ;

    /// Write `value` to the register. One transfer; afterwards the register
    /// holds exactly `value`.
    fn write(&mut self, value: Self::Value)
        ensures
            final(self).readable(),
            final(self).stored() == value,
    ;
}

} // verus!
