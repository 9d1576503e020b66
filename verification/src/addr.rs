//! Physical and virtual address payloads carried by the control registers.

use vstd::prelude::*;

verus! {

/// The page-table granularity: physical frames holding page tables start at
/// multiples of this.
pub const PAGE_SIZE: u64 = 0x1000;

/// The bits below the page-table granularity: the offset within one frame.
pub const PAGE_OFFSET_MASK: u64 = PAGE_SIZE - 1;

/// A 64-bit physical memory address.
#[derive(Clone, Copy, Debug, PartialEq, Eq, Structural)]
pub struct PhysAddr {
    value: u64,
}

impl View for PhysAddr {
    type V = u64;

    closed spec fn view(&self) -> u64 {
        self.value
    }
}

impl PhysAddr {
    /// The physical address with the given numeric value.
    pub fn new(value: u64) -> (r: PhysAddr)
        ensures
            r@ == value,
    {
        PhysAddr { value }
    }

    /// The numeric value of the address.
    pub fn as_u64(self) -> (r: u64)
        ensures
            r == self@,
    {
        self.value
    }
}

/// A 64-bit virtual (linear) address, as the CPU reports it on a page fault.
#[derive(Clone, Copy, Debug, PartialEq, Eq, Structural)]
pub struct VirtAddr {
    value: u64,
}

impl View for VirtAddr {
    type V = u64;

    closed spec fn view(&self) -> u64 {
        self.value
    }
}

impl VirtAddr {
    /// The virtual address with the given numeric value.
    pub fn new(value: u64) -> (r: VirtAddr)
        ensures
            r@ == value,
    {
        VirtAddr { value }
    }

    /// The numeric value of the address.
    pub fn as_u64(self) -> (r: u64)
        ensures
            r == self@,
    {
        self.value
    }
}

/// A physical frame of page-table granularity: a physical address aligned to
/// [`PAGE_SIZE`]. Its view is the start address of the frame.
#[derive(Clone, Copy, Debug, PartialEq, Eq, Structural)]
pub struct PhysFrame {
    start: PhysAddr,
}

impl View for PhysFrame {
    type V = u64;

    closed spec fn view(&self) -> u64 {
        self.start@
    }
}

impl PhysFrame {
    /// The start address is aligned to the page-table granularity.
    pub open spec fn wf(self) -> bool {
        (self@ % PAGE_SIZE) == 0
    }

    /// The frame that contains `addr`: its start address is `addr` rounded
    /// down to the page-table granularity.
    pub fn containing_address(addr: PhysAddr) -> (r: PhysFrame)
        ensures
            r@ == (addr@ & !PAGE_OFFSET_MASK),
            r.wf(),
    {
        let start = addr.as_u64() & !PAGE_OFFSET_MASK;
        proof {
            lemma_align_down_aligned(addr@);
        }
        PhysFrame { start: PhysAddr::new(start) }
    }

    /// The physical address at which the frame starts.
    pub fn start_address(self) -> (r: PhysAddr)
        ensures
            r@ == self@,
    {
        self.start
    }
}

/// Rounding down to the page-table granularity yields an aligned address.
pub proof fn lemma_align_down_aligned(a: u64)
    ensures
        ((a & !PAGE_OFFSET_MASK) % PAGE_SIZE) == 0,
{
    assert(((a & !PAGE_OFFSET_MASK) % PAGE_SIZE) == 0) by (bit_vector);
}

} // verus!
