//! The CR3 register: the physical base of the top-level page table, packed
//! together with two cache-control flags.

use vstd::prelude::*;

use crate::addr::{PhysAddr, PhysFrame, PAGE_OFFSET_MASK, PAGE_SIZE};
use crate::bits::{combine, lemma_mask_extremes, lemma_mask_select_identity,
    lemma_mask_select_in_mask, mask_select};
use crate::reg::Register;

verus! {

/// Page-level Cache Disable: use a write-through cache policy for the
/// top-level page table (else a write-back policy is used).
pub const CR3_PCD: u64 = 1u64 << 3;

/// Page-level Write-Through: controls the memory type used to access the
/// first paging structure of the current paging-structure hierarchy.
pub const CR3_PWT: u64 = 1u64 << 4;

/// The union of every named CR3 bit; the rest of the low bits are reserved.
pub const CR3_ALL: u64 = CR3_PCD | CR3_PWT;

/// The bits of CR3 that carry the physical base address of the top-level page
/// table: everything from the page-table granularity up to the architecture's
/// maximum physical-address width.
pub const CR3_ADDR_MASK: u64 = 0x000f_ffff_ffff_f000;

/// One past the largest physical address the architecture can carry in CR3.
pub const PHYS_ADDR_LIMIT: u64 = 1u64 << 52;

/// The named cache-control flags of the CR3 register.
///
/// A value of this type never carries a bit outside [`CR3_ALL`]: construction
/// from a raw register value silently drops the address payload and every
/// unknown bit.
#[derive(Clone, Copy, Debug, PartialEq, Eq, Structural)]
pub struct Cr3Flags {
    bits: u64,
}

impl View for Cr3Flags {
    type V = u64;

    closed spec fn view(&self) -> u64 {
        self.bits
    }
}

impl Cr3Flags {
    /// The flag set a given raw CR3 value truncates to.
    pub closed spec fn spec_from_raw(raw: u64) -> Cr3Flags {
        Cr3Flags { bits: raw & CR3_ALL }
    }

    /// Only named bits are set.
    pub open spec fn wf(self) -> bool {
        (self@ & !CR3_ALL) == 0
    }

    /// Build a flag set from a raw register value; any bit the model does not
    /// name is silently discarded, never rejected.
    pub fn from_raw_truncating(raw: u64) -> (r: Cr3Flags)
        ensures
            r == Cr3Flags::spec_from_raw(raw),
            r@ == (raw & CR3_ALL),
            r.wf(),
    {
        proof {
            lemma_mask_select_in_mask(raw, CR3_ALL);
        }
        Cr3Flags { bits: mask_select(raw, CR3_ALL) }
    }

    /// The raw bit pattern, with only the named bits set: the inverse of
    /// [`Cr3Flags::from_raw_truncating`] on every constructible flag set.
    pub fn to_raw(self) -> (r: u64)
        ensures
            r == self@,
    {
        self.bits
    }

    /// The empty flag set.
    pub fn empty() -> (r: Cr3Flags)
        ensures
            r@ == 0,
            r.wf(),
    {
        proof {
            lemma_mask_extremes(CR3_ALL);
        }
        Cr3Flags { bits: 0 }
    }

    /// The union of every named flag.
    pub fn all_named() -> (r: Cr3Flags)
        ensures
            r@ == CR3_ALL,
            r.wf(),
    {
        proof {
            lemma_mask_extremes(CR3_ALL);
        }
        Cr3Flags { bits: CR3_ALL }
    }

    /// Every flag set in either operand.
    pub fn union(self, other: Cr3Flags) -> (r: Cr3Flags)
        ensures
            r@ == (self@ | other@),
    {
        Cr3Flags { bits: self.bits | other.bits }
    }

    /// Every flag set in both operands.
    pub fn intersection(self, other: Cr3Flags) -> (r: Cr3Flags)
        ensures
            r@ == (self@ & other@),
    {
        Cr3Flags { bits: self.bits & other.bits }
    }

    /// Every flag set in `self` but not in `other`.
    pub fn difference(self, other: Cr3Flags) -> (r: Cr3Flags)
        ensures
            r@ == (self@ & !other@),
    {
        Cr3Flags { bits: self.bits & !other.bits }
    }

    /// Whether every flag of `other` is also set in `self`.
    pub fn contains(self, other: Cr3Flags) -> (r: bool)
        ensures
            r == ((self@ & other@) == other@),
    {
        (self.bits & other.bits) == other.bits
    }

}

/// CR3: holds the physical address of the top-level page table, together with
/// the cache-control flags for accessing it.
pub struct Cr3;

impl Cr3 {
    /// Read the current page-table base: the physical frame taken from the
    /// address-bearing bits, and the cache-control flags taken from the named
    /// low bits. Reserved bits appear in neither.
    pub fn read(reg: &Register) -> (r: (PhysFrame, Cr3Flags))
        ensures
            r.0@ == (reg@ & CR3_ADDR_MASK),
            r.0.wf(),
            r.1 == Cr3Flags::spec_from_raw(reg@),
            r.1@ == (reg@ & CR3_ALL),
            r.1.wf(),
    {
        let value = reg.load();
        let flags = Cr3Flags::from_raw_truncating(value);
        let addr = PhysAddr::new(mask_select(value, CR3_ADDR_MASK));
        let frame = PhysFrame::containing_address(addr);
        proof {
            lemma_addr_bits_page_aligned(value);
        }
        (frame, flags)
    }

    /// Write a new page-table base into the register: the frame's start
    /// address combined with the flag bits, replacing the whole register
    /// value. Every memory access translated after this goes through the new
    /// table; required translation-cache invalidation is the caller's
    /// concern.
    pub fn write(reg: &mut Register, frame: PhysFrame, flags: Cr3Flags)
        requires
            frame.wf(),
        ensures
            final(reg)@ == (frame@ | flags@),
    {
        let addr = frame.start_address();
        let value = combine(addr.as_u64(), flags.to_raw());
        reg.store(value);
    }
}

/// The address-bearing bits of a raw CR3 value are already aligned to the
/// page-table granularity: rounding them down changes nothing.
pub proof fn lemma_addr_bits_page_aligned(raw: u64)
    ensures
        ((raw & CR3_ADDR_MASK) & !PAGE_OFFSET_MASK) == (raw & CR3_ADDR_MASK),
{
    assert(((raw & CR3_ADDR_MASK) & !PAGE_OFFSET_MASK) == (raw & CR3_ADDR_MASK)) by (bit_vector);
}

/// Truncating a raw value and reading the raw pattern back is exactly masking
/// to the named bits.
pub proof fn lemma_cr3_truncate_masks(raw: u64)
    ensures
        Cr3Flags::spec_from_raw(raw)@ == (raw & CR3_ALL),
{
}

/// Composite round trip: packing an address that is aligned to the page-table
/// granularity and lies within the architecture's physical-address width
/// together with any constructible flag set, then splitting the packed value
/// again, gives back exactly the address and exactly the flags.
pub proof fn lemma_cr3_round_trip(addr: u64, f: Cr3Flags)
    requires
        (addr % PAGE_SIZE) == 0,
        addr < PHYS_ADDR_LIMIT,
        f.wf(),
    ensures
        ((addr | f@) & CR3_ADDR_MASK) == addr,
        Cr3Flags::spec_from_raw(addr | f@) == f,
{
    let fb = f@;
    assert(((addr | fb) & CR3_ADDR_MASK) == addr && ((addr | fb) & CR3_ALL) == fb) by (bit_vector)
        requires
            (addr % PAGE_SIZE) == 0,
            addr < PHYS_ADDR_LIMIT,
            (fb & !CR3_ALL) == 0,
    ;
}

/// Each named CR3 flag is a single bit at its documented position, and no two
/// flags share a position: both constants are powers of two and their plain
/// sum equals their union. The address-bearing bits are disjoint from the
/// named flag bits.
pub proof fn lemma_cr3_flag_positions()
    ensures
        CR3_PCD == 1u64 << 3,
        CR3_PWT == 1u64 << 4,
        (CR3_PCD | CR3_PWT) == CR3_ALL,
        CR3_PCD + CR3_PWT == CR3_ALL,
        (CR3_ADDR_MASK & CR3_ALL) == 0,
{
    assert((CR3_PCD | CR3_PWT) == CR3_ALL && CR3_PCD + CR3_PWT == CR3_ALL
        && (CR3_ADDR_MASK & CR3_ALL) == 0) by (bit_vector);
}

} // verus!
