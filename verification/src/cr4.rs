//! The CR4 register: flags enabling architectural extensions and declaring
//! operating-system support for processor capabilities.

use vstd::prelude::*;

use crate::bits::{lemma_mask_extremes, lemma_mask_select_identity, lemma_mask_select_in_mask,
    mask_select};
use crate::reg::Register;

verus! {

/// Virtual-8086 Mode Extensions: enables interrupt- and exception-handling
/// extensions in virtual-8086 mode.
pub const CR4_VME: u64 = 1u64 << 0;

/// Protected-Mode Virtual Interrupts: enables hardware support for a virtual
/// interrupt flag in protected mode.
pub const CR4_PVI: u64 = 1u64 << 1;

/// Time Stamp Disable: restricts the `rdtsc` instruction to privilege level
/// zero.
pub const CR4_TSD: u64 = 1u64 << 2;

/// Debugging Extensions: enables debug-register based breaks on I/O space
/// access.
pub const CR4_DE: u64 = 1u64 << 3;

/// Page Size Extensions: references to debug registers DR4 and DR5 raise an
/// undefined-opcode exception when set.
pub const CR4_PSE: u64 = 1u64 << 4;

/// Physical Address Extension: changes the page-table layout to translate
/// 32-bit virtual addresses into extended 36-bit physical addresses.
pub const CR4_PAE: u64 = 1u64 << 5;

/// Machine-Check Enable: allows paging to produce physical addresses wider
/// than 32 bits.
pub const CR4_MCE: u64 = 1u64 << 6;

/// Page Global Enable: global pages are not flushed from the
/// translation-lookaside buffer on a task switch or a CR3 write.
pub const CR4_PGE: u64 = 1u64 << 7;

/// Performance-Monitoring Counter Enable: allows `rdpmc` at any protection
/// level.
pub const CR4_PCE: u64 = 1u64 << 8;

/// Support for `fxsave`/`fxrstor`: enables SSE instructions and fast FPU save
/// and restore.
pub const CR4_OSFXSR: u64 = 1u64 << 9;

/// Support for unmasked SIMD floating-point exceptions.
pub const CR4_OSXMMEXCPT: u64 = 1u64 << 10;

/// User-Mode Instruction Prevention: `sgdt`, `sidt`, `sldt`, `smsw` and `str`
/// cannot be executed outside privilege level zero.
pub const CR4_UMIP: u64 = 1u64 << 11;

/// LA57: enables five-level paging.
pub const CR4_LA57: u64 = 1u64 << 12;

/// VMX-Enable: enables VMX operation.
pub const CR4_VMXE: u64 = 1u64 << 13;

/// SMX-Enable: enables SMX operation.
pub const CR4_SMXE: u64 = 1u64 << 14;

/// FSGSBASE-Enable: enables `rdfsbase`, `rdgsbase`, `wrfsbase` and
/// `wrgsbase`.
pub const CR4_FSGSBASE: u64 = 1u64 << 16;

/// PCID-Enable: enables process-context identifiers.
pub const CR4_PCIDE: u64 = 1u64 << 17;

/// XSAVE and Processor Extended States-Enable.
pub const CR4_OSXSAVE: u64 = 1u64 << 18;

/// SMEP-Enable: execution of code in a higher ring generates a fault.
pub const CR4_SMEP: u64 = 1u64 << 20;

/// SMAP-Enable: access of data in a higher ring generates a fault.
pub const CR4_SMAP: u64 = 1u64 << 21;

/// Protection-Key-Enable: associates each linear address with a protection
/// key and enables access to the PKRU register.
pub const CR4_PKE: u64 = 1u64 << 22;

/// The union of every named CR4 bit; everything outside it is reserved.
pub const CR4_ALL: u64 = CR4_VME | CR4_PVI | CR4_TSD | CR4_DE | CR4_PSE | CR4_PAE | CR4_MCE
    | CR4_PGE | CR4_PCE | CR4_OSFXSR | CR4_OSXMMEXCPT | CR4_UMIP | CR4_LA57 | CR4_VMXE | CR4_SMXE
    | CR4_FSGSBASE | CR4_PCIDE | CR4_OSXSAVE | CR4_SMEP | CR4_SMAP | CR4_PKE;

/// The named configuration flags of the CR4 register.
///
/// A value of this type never carries a bit outside [`CR4_ALL`]: construction
/// from a raw register value silently drops unknown and reserved bits, so a
/// raw value minted by a future processor still yields a meaningful flag set.
#[derive(Clone, Copy, Debug, PartialEq, Eq, Structural)]
pub struct Cr4Flags {
    bits: u64,
}

impl View for Cr4Flags {
    type V = u64;

    closed spec fn view(&self) -> u64 {
        self.bits
    }
}

impl Cr4Flags {
    /// The flag set a given raw CR4 value truncates to.
    pub closed spec fn spec_from_raw(raw: u64) -> Cr4Flags {
        Cr4Flags { bits: raw & CR4_ALL }
    }

    /// Only named bits are set.
    pub open spec fn wf(self) -> bool {
        (self@ & !CR4_ALL) == 0
    }

    /// Build a flag set from a raw register value; any bit the model does not
    /// name is silently discarded, never rejected.
    pub fn from_raw_truncating(raw: u64) -> (r: Cr4Flags)
        ensures
            r == Cr4Flags::spec_from_raw(raw),
            r@ == (raw & CR4_ALL),
            r.wf(),
    {
        proof {
            lemma_mask_select_in_mask(raw, CR4_ALL);
        }
        Cr4Flags { bits: mask_select(raw, CR4_ALL) }
    }

    /// The raw bit pattern, with only the named bits set: the inverse of
    /// [`Cr4Flags::from_raw_truncating`] on every constructible flag set.
    pub fn to_raw(self) -> (r: u64)
        ensures
            r == self@,
    {
        self.bits
    }

    /// The empty flag set.
    pub fn empty() -> (r: Cr4Flags)
        ensures
            r@ == 0,
            r.wf(),
    {
        proof {
            lemma_mask_extremes(CR4_ALL);
        }
        Cr4Flags { bits: 0 }
    }

    /// The union of every named flag; its complement is the reserved region
    /// that flag-preserving writes leave alone.
    pub fn all_named() -> (r: Cr4Flags)
        ensures
            r@ == CR4_ALL,
            r.wf(),
    {
        proof {
            lemma_mask_extremes(CR4_ALL);
        }
        Cr4Flags { bits: CR4_ALL }
    }

    /// Every flag set in either operand.
    pub fn union(self, other: Cr4Flags) -> (r: Cr4Flags)
        ensures
            r@ == (self@ | other@),
    {
        Cr4Flags { bits: self.bits | other.bits }
    }

    /// Every flag set in both operands.
    pub fn intersection(self, other: Cr4Flags) -> (r: Cr4Flags)
        ensures
            r@ == (self@ & other@),
    {
        Cr4Flags { bits: self.bits & other.bits }
    }

    /// Every flag set in `self` but not in `other`.
    pub fn difference(self, other: Cr4Flags) -> (r: Cr4Flags)
        ensures
            r@ == (self@ & !other@),
    {
        Cr4Flags { bits: self.bits & !other.bits }
    }

    /// Whether every flag of `other` is also set in `self`.
    pub fn contains(self, other: Cr4Flags) -> (r: bool)
        ensures
            r == ((self@ & other@) == other@),
    {
        (self.bits & other.bits) == other.bits
    }

}

/// CR4: flags that enable architectural extensions and indicate operating
/// system or executive support for specific processor capabilities.
pub struct Cr4;

impl Cr4 {
    /// Read the current set of CR4 flags; reserved and unknown bits are
    /// dropped.
    pub fn read(reg: &Register) -> (r: Cr4Flags)
        ensures
            r == Cr4Flags::spec_from_raw(reg@),
            r@ == (reg@ & CR4_ALL),
            r.wf(),
    {
        Cr4Flags::from_raw_truncating(Self::read_raw(reg))
    }

    /// Read the current raw CR4 value, reserved bits included.
    pub fn read_raw(reg: &Register) -> (r: u64)
        ensures
            r == reg@,
    {
        reg.load()
    }

    /// Write CR4 flags, preserving reserved fields: every bit outside
    /// [`CR4_ALL`] is left exactly as it was observed immediately before the
    /// write, and the named bits become exactly `flags`.
    ///
    /// Whether the resulting configuration is safe to run under is the
    /// caller's responsibility.
    pub fn write(reg: &mut Register, flags: Cr4Flags)
        ensures
            final(reg)@ == ((old(reg)@ & !CR4_ALL) | flags@),
    {
        crate::reg::write_preserving(reg, CR4_ALL, flags.to_raw())
    }

    /// Replace the whole CR4 value, reserved bits included. Unlike
    /// [`Cr4::write`], this preserves nothing.
    pub fn write_raw(reg: &mut Register, value: u64)
        ensures
            final(reg)@ == value,
    {
        reg.store(value)
    }

    /// Read the current flags, apply `f`, and write the result back with
    /// [`Cr4::write`], so reserved bits are preserved.
    pub fn update<F: FnOnce(Cr4Flags) -> Cr4Flags>(reg: &mut Register, f: F)
        requires
            call_requires(f, (Cr4Flags::spec_from_raw(old(reg)@),)),
        ensures
            exists|m: Cr4Flags|
                #[trigger] call_ensures(f, (Cr4Flags::spec_from_raw(old(reg)@),), m)
                    && final(reg)@ == ((old(reg)@ & !CR4_ALL) | m@),
    {
        let flags = Self::read(reg);
        let new_flags = f(flags);
        Self::write(reg, new_flags);
    }
}

/// Truncating a raw value and reading the raw pattern back is exactly masking
/// to the named bits.
pub proof fn lemma_cr4_truncate_masks(raw: u64)
    ensures
        Cr4Flags::spec_from_raw(raw)@ == (raw & CR4_ALL),
{
}

/// The round trip through raw form is lossless for every flag set built from
/// named bits.
pub proof fn lemma_cr4_raw_round_trip(f: Cr4Flags)
    requires
        f.wf(),
    ensures
        Cr4Flags::spec_from_raw(f@) == f,
{
    lemma_mask_select_identity(f@, CR4_ALL);
}

/// `update(f)` is `write(f(read()))`: when every result of `f` equals a pure
/// transformation `g` of its argument, the raw value that
/// [`Cr4::update`]'s contract admits for a register that held `r0` is exactly
/// the one [`Cr4::write`] leaves behind when handed `g` of what [`Cr4::read`]
/// returns on `r0`.
pub proof fn lemma_cr4_update_is_write_of_read<F: FnOnce(Cr4Flags) -> Cr4Flags>(
    f: F,
    g: spec_fn(Cr4Flags) -> Cr4Flags,
    r0: u64,
    r1: u64,
)
    requires
        forall|x: Cr4Flags, y: Cr4Flags| #[trigger] call_ensures(f, (x,), y) ==> y == g(x),
        exists|m: Cr4Flags|
            #[trigger] call_ensures(f, (Cr4Flags::spec_from_raw(r0),), m)
                && r1 == ((r0 & !CR4_ALL) | m@),
    ensures
        r1 == ((r0 & !CR4_ALL) | g(Cr4Flags::spec_from_raw(r0))@),
{
    let m = choose|m: Cr4Flags|
        #[trigger] call_ensures(f, (Cr4Flags::spec_from_raw(r0),), m)
            && r1 == ((r0 & !CR4_ALL) | m@);
}

/// Each named CR4 flag is a single bit at its documented position, and no two
/// flags share a position: because every constant is a power of two and their
/// plain sum equals their union, the bits are pairwise disjoint.
pub proof fn lemma_cr4_flag_positions()
    ensures
        CR4_VME == 1u64 << 0,
        CR4_PVI == 1u64 << 1,
        CR4_TSD == 1u64 << 2,
        CR4_DE == 1u64 << 3,
        CR4_PSE == 1u64 << 4,
        CR4_PAE == 1u64 << 5,
        CR4_MCE == 1u64 << 6,
        CR4_PGE == 1u64 << 7,
        CR4_PCE == 1u64 << 8,
        CR4_OSFXSR == 1u64 << 9,
        CR4_OSXMMEXCPT == 1u64 << 10,
        CR4_UMIP == 1u64 << 11,
        CR4_LA57 == 1u64 << 12,
        CR4_VMXE == 1u64 << 13,
        CR4_SMXE == 1u64 << 14,
        CR4_FSGSBASE == 1u64 << 16,
        CR4_PCIDE == 1u64 << 17,
        CR4_OSXSAVE == 1u64 << 18,
        CR4_SMEP == 1u64 << 20,
        CR4_SMAP == 1u64 << 21,
        CR4_PKE == 1u64 << 22,
        (CR4_VME | CR4_PVI | CR4_TSD | CR4_DE | CR4_PSE | CR4_PAE | CR4_MCE | CR4_PGE | CR4_PCE
            | CR4_OSFXSR | CR4_OSXMMEXCPT | CR4_UMIP | CR4_LA57 | CR4_VMXE | CR4_SMXE
            | CR4_FSGSBASE | CR4_PCIDE | CR4_OSXSAVE | CR4_SMEP | CR4_SMAP | CR4_PKE) == CR4_ALL,
        CR4_VME + CR4_PVI + CR4_TSD + CR4_DE + CR4_PSE + CR4_PAE + CR4_MCE + CR4_PGE + CR4_PCE
            + CR4_OSFXSR + CR4_OSXMMEXCPT + CR4_UMIP + CR4_LA57 + CR4_VMXE + CR4_SMXE
            + CR4_FSGSBASE + CR4_PCIDE + CR4_OSXSAVE + CR4_SMEP + CR4_SMAP + CR4_PKE == CR4_ALL,
{
    assert((CR4_VME | CR4_PVI | CR4_TSD | CR4_DE | CR4_PSE | CR4_PAE | CR4_MCE | CR4_PGE | CR4_PCE
        | CR4_OSFXSR | CR4_OSXMMEXCPT | CR4_UMIP | CR4_LA57 | CR4_VMXE | CR4_SMXE | CR4_FSGSBASE
        | CR4_PCIDE | CR4_OSXSAVE | CR4_SMEP | CR4_SMAP | CR4_PKE) == CR4_ALL
        && CR4_VME + CR4_PVI + CR4_TSD + CR4_DE + CR4_PSE + CR4_PAE + CR4_MCE + CR4_PGE + CR4_PCE
            + CR4_OSFXSR + CR4_OSXMMEXCPT + CR4_UMIP + CR4_LA57 + CR4_VMXE + CR4_SMXE
            + CR4_FSGSBASE + CR4_PCIDE + CR4_OSXSAVE + CR4_SMEP + CR4_SMAP + CR4_PKE == CR4_ALL)
        by (bit_vector);
}

} // verus!
