//! Coprocessor 15 register file: identification registers, translation-table
//! bases, domain access, and the two thread-local-storage pointers.

use vstd::prelude::*;

verus! {

#[derive(Clone, Copy, PartialEq, Eq, Structural)]
pub struct Cp15 {
    pub control: u32,
    pub ttbr0: u32,
    pub ttbr1: u32,
    pub ttbcr: u32,
    pub domain_access: u32,
    pub thread_id_user: u32,
    pub thread_id_priv: u32,
}

/// What a coprocessor register read returns for a given register file.
pub open spec fn s_cp15_read(c: Cp15, crn: u32, opc1: u32, crm: u32, opc2: u32) -> u32 {
    if crn == 0 && opc1 == 0 && crm == 0 && opc2 == 0 {
        0x410F_B767
    } else if crn == 0 && opc1 == 0 && crm == 0 && opc2 == 1 {
        0x0001_1131
    } else if crn == 1 && opc1 == 0 && crm == 0 && opc2 == 0 {
        c.control
    } else if crn == 2 && opc1 == 0 && crm == 0 && opc2 == 0 {
        c.ttbr0
    } else if crn == 2 && opc1 == 0 && crm == 0 && opc2 == 1 {
        c.ttbr1
    } else if crn == 2 && opc1 == 0 && crm == 0 && opc2 == 2 {
        c.ttbcr
    } else if crn == 3 && opc1 == 0 && crm == 0 && opc2 == 0 {
        c.domain_access
    } else if crn == 13 && opc1 == 0 && crm == 0 && opc2 == 2 {
        c.thread_id_user
    } else if crn == 13 && opc1 == 0 && crm == 0 && opc2 == 3 {
        c.thread_id_priv
    } else {
        0
    }
}

/// What a coprocessor register write leaves behind.  Cache and TLB operation
/// registers, and all unknown registers, are ignored.
pub open spec fn s_cp15_write(c: Cp15, crn: u32, opc1: u32, crm: u32, opc2: u32, val: u32) -> Cp15 {
    if crn == 1 && opc1 == 0 && crm == 0 && opc2 == 0 {
        Cp15 { control: val, ..c }
    } else if crn == 2 && opc1 == 0 && crm == 0 && opc2 == 0 {
        Cp15 { ttbr0: val, ..c }
    } else if crn == 2 && opc1 == 0 && crm == 0 && opc2 == 1 {
        Cp15 { ttbr1: val, ..c }
    } else if crn == 2 && opc1 == 0 && crm == 0 && opc2 == 2 {
        Cp15 { ttbcr: val, ..c }
    } else if crn == 3 && opc1 == 0 && crm == 0 && opc2 == 0 {
        Cp15 { domain_access: val, ..c }
    } else if crn == 13 && opc1 == 0 && crm == 0 && opc2 == 2 {
        Cp15 { thread_id_user: val, ..c }
    } else if crn == 13 && opc1 == 0 && crm == 0 && opc2 == 3 {
        Cp15 { thread_id_priv: val, ..c }
    } else {
        c
    }
}

/// The reset value of the register file.
pub open spec fn s_cp15_new() -> Cp15 {
    Cp15 {
        control: 0x0005_1078,
        ttbr0: 0,
        ttbr1: 0,
        ttbcr: 0,
        domain_access: 0,
        thread_id_user: 0,
        thread_id_priv: 0,
    }
}

impl Cp15 {
    pub fn new() -> (c: Self)
        ensures
            c == s_cp15_new(),
    {
        Self {
            control: 0x0005_1078,
            ttbr0: 0,
            ttbr1: 0,
            ttbcr: 0,
            domain_access: 0,
            thread_id_user: 0,
            thread_id_priv: 0,
        }
    }

    pub fn read(&self, crn: u32, opc1: u32, crm: u32, opc2: u32) -> (r: u32)
        ensures
            r == s_cp15_read(*self, crn, opc1, crm, opc2),
    {
        if crn == 0 && opc1 == 0 && crm == 0 && opc2 == 0 {
            0x410F_B767
        } else if crn == 0 && opc1 == 0 && crm == 0 && opc2 == 1 {
            0x0001_1131
        } else if crn == 1 && opc1 == 0 && crm == 0 && opc2 == 0 {
            self.control
        } else if crn == 2 && opc1 == 0 && crm == 0 && opc2 == 0 {
            self.ttbr0
        } else if crn == 2 && opc1 == 0 && crm == 0 && opc2 == 1 {
            self.ttbr1
        } else if crn == 2 && opc1 == 0 && crm == 0 && opc2 == 2 {
            self.ttbcr
        } else if crn == 3 && opc1 == 0 && crm == 0 && opc2 == 0 {
            self.domain_access
        } else if crn == 13 && opc1 == 0 && crm == 0 && opc2 == 2 {
            self.thread_id_user
        } else if crn == 13 && opc1 == 0 && crm == 0 && opc2 == 3 {
            self.thread_id_priv
        } else {
            0
        }
    }

    pub fn write(&mut self, crn: u32, opc1: u32, crm: u32, opc2: u32, val: u32)
        ensures
            *final(self) == s_cp15_write(*old(self), crn, opc1, crm, opc2, val),
    {
        if crn == 1 && opc1 == 0 && crm == 0 && opc2 == 0 {
            self.control = val;
        } else if crn == 2 && opc1 == 0 && crm == 0 && opc2 == 0 {
            self.ttbr0 = val;
        } else if crn == 2 && opc1 == 0 && crm == 0 && opc2 == 1 {
            self.ttbr1 = val;
        } else if crn == 2 && opc1 == 0 && crm == 0 && opc2 == 2 {
            self.ttbcr = val;
        } else if crn == 3 && opc1 == 0 && crm == 0 && opc2 == 0 {
            self.domain_access = val;
        } else if crn == 13 && opc1 == 0 && crm == 0 && opc2 == 2 {
            self.thread_id_user = val;
        } else if crn == 13 && opc1 == 0 && crm == 0 && opc2 == 3 {
            self.thread_id_priv = val;
        }
    }

    pub fn mmu_enabled(&self) -> (b: bool)
        ensures
            b == ((self.control & 1) != 0),
    {
        self.control & 1 != 0
    }
}

} // verus!
