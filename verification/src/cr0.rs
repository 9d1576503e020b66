//! The CR0 register: operating-mode and protection control flags.

use vstd::prelude::*;

use crate::bits::{lemma_mask_extremes, lemma_mask_select_identity, lemma_mask_select_in_mask,
    mask_select};
use crate::reg::Register;

verus! {

/// Protection Enable: enables protected mode.
pub const CR0_PE: u64 = 1u64 << 0;

/// Monitor Coprocessor: controls, together with `CR0_TS`, whether a `wait` or
/// `fwait` instruction causes a device-not-available exception.
pub const CR0_MP: u64 = 1u64 << 1;

/// Emulation: set when the processor has no internal or external x87 FPU.
pub const CR0_EM: u64 = 1u64 << 2;

/// Task Switched: allows lazily saving x87/MMX/SSE state on hardware context
/// switches.
pub const CR0_TS: u64 = 1u64 << 3;

/// Extension Type: reserved on newer processor families.
pub const CR0_ET: u64 = 1u64 << 4;

/// Numeric Error: enables the native error-reporting mechanism for x87 FPU
/// errors.
pub const CR0_NE: u64 = 1u64 << 5;

/// Write Protect: when set, supervisor-level writes to read-only pages are
/// inhibited.
pub const CR0_WP: u64 = 1u64 << 16;

/// Alignment Mask: enables automatic alignment checking.
pub const CR0_AM: u64 = 1u64 << 18;

/// Not Write-through: ignored; controlled write-back/write-through cache
/// strategy on older CPUs.
pub const CR0_NW: u64 = 1u64 << 29;

/// Cache Disable: disables internal caches (only for some cases).
pub const CR0_CD: u64 = 1u64 << 30;

/// Paging: enables page translation.
pub const CR0_PG: u64 = 1u64 << 31;

/// The union of every named CR0 bit; everything outside it is reserved.
pub const CR0_ALL: u64 = CR0_PE | CR0_MP | CR0_EM | CR0_TS | CR0_ET | CR0_NE | CR0_WP | CR0_AM
    | CR0_NW | CR0_CD | CR0_PG;

/// The named configuration flags of the CR0 register.
///
/// A value of this type never carries a bit outside [`CR0_ALL`]: construction
/// from a raw register value silently drops unknown and reserved bits, so a
/// raw value minted by a future processor still yields a meaningful flag set.
#[derive(Clone, Copy, Debug, PartialEq, Eq, Structural)]
pub struct Cr0Flags {
    bits: u64,
}

impl View for Cr0Flags {
    type V = u64;

    closed spec fn view(&self) -> u64 {
        self.bits
    }
}

impl Cr0Flags {
    /// The flag set a given raw CR0 value truncates to.
    pub closed spec fn spec_from_raw(raw: u64) -> Cr0Flags {
        Cr0Flags { bits: raw & CR0_ALL }
    }

    /// Only named bits are set.
    pub open spec fn wf(self) -> bool {
        (self@ & !CR0_ALL) == 0
    }

    /// Build a flag set from a raw register value; any bit the model does not
    /// name is silently discarded, never rejected.
    pub fn from_raw_truncating(raw: u64) -> (r: Cr0Flags)
        ensures
            r == Cr0Flags::spec_from_raw(raw),
            r@ == (raw & CR0_ALL),
            r.wf(),
    {
        proof {
            lemma_mask_select_in_mask(raw, CR0_ALL);
        }
        Cr0Flags { bits: mask_select(raw, CR0_ALL) }
    }

    /// The raw bit pattern, with only the named bits set: the inverse of
    /// [`Cr0Flags::from_raw_truncating`] on every constructible flag set.
    pub fn to_raw(self) -> (r: u64)
        ensures
            r == self@,
    {
        self.bits
    }

    /// The empty flag set.
    pub fn empty() -> (r: Cr0Flags)
        ensures
            r@ == 0,
            r.wf(),
    {
        proof {
            lemma_mask_extremes(CR0_ALL);
        }
        Cr0Flags { bits: 0 }
    }

    /// The union of every named flag; its complement is the reserved region
    /// that flag-preserving writes leave alone.
    pub fn all_named() -> (r: Cr0Flags)
        ensures
            r@ == CR0_ALL,
            r.wf(),
    {
        proof {
            lemma_mask_extremes(CR0_ALL);
        }
        Cr0Flags { bits: CR0_ALL }
    }

    /// Every flag set in either operand.
    pub fn union(self, other: Cr0Flags) -> (r: Cr0Flags)
        ensures
            r@ == (self@ | other@),
    {
        Cr0Flags { bits: self.bits | other.bits }
    }

    /// Every flag set in both operands.
    pub fn intersection(self, other: Cr0Flags) -> (r: Cr0Flags)
        ensures
            r@ == (self@ & other@),
    {
        Cr0Flags { bits: self.bits & other.bits }
    }

    /// Every flag set in `self` but not in `other`.
    pub fn difference(self, other: Cr0Flags) -> (r: Cr0Flags)
        ensures
            r@ == (self@ & !other@),
    {
        Cr0Flags { bits: self.bits & !other.bits }
    }

    /// Whether every flag of `other` is also set in `self`.
    pub fn contains(self, other: Cr0Flags) -> (r: bool)
        ensures
            r == ((self@ & other@) == other@),
    {
        (self.bits & other.bits) == other.bits
    }

}

/// CR0: system control flags that govern the operating mode and states of the
/// CPU.
pub struct Cr0;

impl Cr0 {
    /// Read the current set of CR0 flags; reserved and unknown bits are
    /// dropped.
    pub fn read(reg: &Register) -> (r: Cr0Flags)
        ensures
            r == Cr0Flags::spec_from_raw(reg@),
            r@ == (reg@ & CR0_ALL),
            r.wf(),
    {
        Cr0Flags::from_raw_truncating(Self::read_raw(reg))
    }

    /// Read the current raw CR0 value, reserved bits included.
    pub fn read_raw(reg: &Register) -> (r: u64)
        ensures
            r == reg@,
    {
        reg.load()
    }

    /// Write CR0 flags, preserving reserved fields: every bit outside
    /// [`CR0_ALL`] is left exactly as it was observed immediately before the
    /// write, and the named bits become exactly `flags`.
    ///
    /// Whether the resulting configuration is safe to run under (for example,
    /// clearing [`CR0_PG`] while executing from a virtual address) is the
    /// caller's responsibility.
    pub fn write(reg: &mut Register, flags: Cr0Flags)
        ensures
            final(reg)@ == ((old(reg)@ & !CR0_ALL) | flags@),
    {
        crate::reg::write_preserving(reg, CR0_ALL, flags.to_raw())
    }

    /// Replace the whole CR0 value, reserved bits included. Unlike
    /// [`Cr0::write`], this preserves nothing.
    pub fn write_raw(reg: &mut Register, value: u64)
        ensures
            final(reg)@ == value,
    {
        reg.store(value)
    }

    /// Read the current flags, apply `f`, and write the result back with
    /// [`Cr0::write`], so reserved bits are preserved.
    pub fn update<F: FnOnce(Cr0Flags) -> Cr0Flags>(reg: &mut Register, f: F)
        requires
            call_requires(f, (Cr0Flags::spec_from_raw(old(reg)@),)),
        ensures
            exists|m: Cr0Flags|
                #[trigger] call_ensures(f, (Cr0Flags::spec_from_raw(old(reg)@),), m)
                    && final(reg)@ == ((old(reg)@ & !CR0_ALL) | m@),
    {
        let flags = Self::read(reg);
        let new_flags = f(flags);
        Self::write(reg, new_flags);
    }
}

/// Truncating a raw value and reading the raw pattern back is exactly masking
/// to the named bits.
pub proof fn lemma_cr0_truncate_masks(raw: u64)
    ensures
        Cr0Flags::spec_from_raw(raw)@ == (raw & CR0_ALL),
{
}

/// The round trip through raw form is lossless for every flag set built from
/// named bits.
pub proof fn lemma_cr0_raw_round_trip(f: Cr0Flags)
    requires
        f.wf(),
    ensures
        Cr0Flags::spec_from_raw(f@) == f,
{
    lemma_mask_select_identity(f@, CR0_ALL);
}

/// `update(f)` is `write(f(read()))`: when every result of `f` equals a pure
/// transformation `g` of its argument, the raw value that
/// [`Cr0::update`]'s contract admits for a register that held `r0` is exactly
/// the one [`Cr0::write`] leaves behind when handed `g` of what [`Cr0::read`]
/// returns on `r0`.
pub proof fn lemma_cr0_update_is_write_of_read<F: FnOnce(Cr0Flags) -> Cr0Flags>(
    f: F,
    g: spec_fn(Cr0Flags) -> Cr0Flags,
    r0: u64,
    r1: u64,
)
    requires
        forall|x: Cr0Flags, y: Cr0Flags| #[trigger] call_ensures(f, (x,), y) ==> y == g(x),
        exists|m: Cr0Flags|
            #[trigger] call_ensures(f, (Cr0Flags::spec_from_raw(r0),), m)
                && r1 == ((r0 & !CR0_ALL) | m@),
    ensures
        r1 == ((r0 & !CR0_ALL) | g(Cr0Flags::spec_from_raw(r0))@),
{
    let m = choose|m: Cr0Flags|
        #[trigger] call_ensures(f, (Cr0Flags::spec_from_raw(r0),), m)
            && r1 == ((r0 & !CR0_ALL) | m@);
}

/// Each named CR0 flag is a single bit at its documented position, and no two
/// flags share a position: because every constant is a power of two and their
/// plain sum equals their union, the bits are pairwise disjoint.
pub proof fn lemma_cr0_flag_positions()
    ensures
        CR0_PE == 1u64 << 0,
        CR0_MP == 1u64 << 1,
        CR0_EM == 1u64 << 2,
        CR0_TS == 1u64 << 3,
        CR0_ET == 1u64 << 4,
        CR0_NE == 1u64 << 5,
        CR0_WP == 1u64 << 16,
        CR0_AM == 1u64 << 18,
        CR0_NW == 1u64 << 29,
        CR0_CD == 1u64 << 30,
        CR0_PG == 1u64 << 31,
        (CR0_PE | CR0_MP | CR0_EM | CR0_TS | CR0_ET | CR0_NE | CR0_WP | CR0_AM | CR0_NW | CR0_CD
            | CR0_PG) == CR0_ALL,
        CR0_PE + CR0_MP + CR0_EM + CR0_TS + CR0_ET + CR0_NE + CR0_WP + CR0_AM + CR0_NW + CR0_CD
            + CR0_PG == CR0_ALL,
{
    assert((CR0_PE | CR0_MP | CR0_EM | CR0_TS | CR0_ET | CR0_NE | CR0_WP | CR0_AM | CR0_NW
        | CR0_CD | CR0_PG) == CR0_ALL
        && CR0_PE + CR0_MP + CR0_EM + CR0_TS + CR0_ET + CR0_NE + CR0_WP + CR0_AM + CR0_NW + CR0_CD
            + CR0_PG == CR0_ALL) by (bit_vector);
}

} // verus!
