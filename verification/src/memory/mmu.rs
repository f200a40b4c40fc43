//! Minimal MMU stand-in.  The kernel controls the address space directly for
//! HLE homebrew, so translation is the identity.

use vstd::prelude::*;

verus! {

pub struct Mmu {
    pub enabled: bool,
}

impl Mmu {
    pub fn new() -> (m: Self)
        ensures
            !m.enabled,
    {
        Self { enabled: false }
    }

    pub fn set_enabled(&mut self, enabled: bool)
        ensures
            final(self).enabled == enabled,
    {
        self.enabled = enabled;
    }

    pub fn is_enabled(&self) -> (b: bool)
        ensures
            b == self.enabled,
    {
        self.enabled
    }

    /// Virtual addresses are used directly by the memory subsystem.
    pub fn translate(&self, vaddr: u32) -> (r: u32)
        ensures
            r == vaddr,
    {
        vaddr
    }
}

} // verus!
