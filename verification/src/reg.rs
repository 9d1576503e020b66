//! The register cell and the flag-preserving read-modify-write core.

use vstd::prelude::*;

verus! {

/// A 64-bit register cell: the value one control register currently holds.
///
/// On hardware, every read of a control register issues a fresh privileged
/// instruction and every write takes effect immediately. That state is
/// modelled here as an explicit mutable cell, so that the read/modify/write
/// logic can be stated over the value before and after each operation. The
/// unverified layer that talks to the hardware mirrors each operation onto
/// the physical register.
pub struct Register {
    raw: u64,
}

impl View for Register {
    type V = u64;

    closed spec fn view(&self) -> u64 {
        self.raw
    }
}

impl Register {
    /// A register cell currently holding `raw`.
    pub fn new(raw: u64) -> (r: Register)
        ensures
            r@ == raw,
    {
        Register { raw }
    }

    /// The current raw 64-bit value of the register.
    pub fn load(&self) -> (r: u64)
        ensures
            r == self@,
    {
        self.raw
    }

    /// Replace the entire register value, every bit of it.
    pub fn store(&mut self, value: u64)
        ensures
            final(self)@ == value,
    {
        self.raw = value;
    }
}

/// Read the register and keep only the bits inside `named`.
pub fn read_truncated(reg: &Register, named: u64) -> (r: u64)
    ensures
        r == (reg@ & named),
{
    reg.load() & named
}

/// Replace the bits inside `named` with `flag_bits` and leave every bit
/// outside `named` exactly as it was read: the flag-preserving
/// read-modify-write that all register writes go through.
pub fn write_preserving(reg: &mut Register, named: u64, flag_bits: u64)
    ensures
        final(reg)@ == ((old(reg)@ & !named) | flag_bits),
{
    let old_value = reg.load();
    let reserved = old_value & !named;
    reg.store(reserved | flag_bits);
}

} // verus!
