//! Typed access to the x86_64 control registers.
//!
//! Each control register gets a bitflag model of its architecturally named
//! bits, accessors that read, write and update the register while preserving
//! every bit the model does not name, and — for the page-table-base register —
//! a decoder that splits the raw value into a physical frame address and
//! cache-control flags.
//!
//! The privileged instructions that move values in and out of the physical
//! registers cannot be expressed here; the register is therefore modelled as
//! an explicit 64-bit cell ([`reg::Register`]). An unverified shim mirrors
//! each operation onto the hardware register.

pub mod addr;
pub mod bits;
pub mod cr0;
pub mod cr2;
pub mod cr3;
pub mod cr4;
pub mod reg;
