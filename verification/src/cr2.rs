//! The CR2 register: the page-fault linear address.

use vstd::prelude::*;

use crate::addr::VirtAddr;
use crate::reg::Register;

verus! {

/// CR2: holds the page-fault linear address — the linear address whose access
/// caused the last page fault. The CPU sets it whenever a page fault occurs;
/// it carries no flags.
pub struct Cr2;

impl Cr2 {
    /// Read the page-fault linear address the CPU recorded.
    pub fn read(reg: &Register) -> (r: VirtAddr)
        ensures
            r@ == reg@,
    {
        VirtAddr::new(reg.load())
    }
}

} // verus!
