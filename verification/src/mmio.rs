//! Memory-mapped registers.
//!
//! An [`Mmio`] owns exactly one value slot; the slot's own location is the
//! register's address, so there is no separate address field. The slot
//! models the hardware-visible cell: each read and write of the register is
//! one access of the slot. Construction without an initial value is
//! permitted, but such a register must be written before it is first read —
//! the contract of [`Io::read`] enforces that order. Nothing at this layer
//! coordinates concurrent access to the same register; callers must do so
//! externally.

use vstd::prelude::*;

use crate::io::Io;

verus! {

/// A memory-mapped register holding one value of type `T`.
pub struct Mmio<T> {
    slot: Option<T>,
}

impl<T: Copy> Mmio<T> {
    /// Create a memory-mapped register without initializing its slot.
    ///
    /// The contents are undefined until the first write: reading before
    /// writing is ruled out by the precondition of [`Io::read`].
    pub fn new() -> (r: Self)
        ensures
            !r.readable(),
    {
        Mmio { slot: None }
    }

    /// Create a memory-mapped register whose slot is known to hold `value`
    /// already, as when hardware guarantees a reset value.
    pub fn with_value(value: T) -> (r: Self)
        ensures
            r.readable(),
            r.stored() == value,
    {
        Mmio { slot: Some(value) }
    }
}

impl<T: Copy> Io for Mmio<T> {
    type Value = T;

    closed spec fn readable(&self) -> bool {
        self.slot is Some
    }

    closed spec fn stored(&self) -> T {
        self.slot->0
    }

    fn read(&self) -> (r: T) {
        match &self.slot {
            Some(v) => *v,
            None => unreached(),
        }
    }

    fn write(&mut self, value: T) {
        self.slot = Some(value);
    }
}

} // verus!
