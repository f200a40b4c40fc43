//! Region-dispatched byte storage: FCRAM (reachable through three virtual
//! windows), VRAM, the read-only config page, the shared page, thread-local
//! storage, and the IO register block.  Reads of unmapped addresses return
//! zero; writes to unmapped or read-only addresses are dropped.

use vstd::prelude::*;

verus! {

use crate::memory::CONFIG_MEM_SIZE;
use crate::memory::FCRAM_SIZE;
use crate::memory::SHARED_PAGE_SIZE;
use crate::memory::TLS_SIZE;
use crate::memory::VADDR_CODE_BASE;
use crate::memory::VADDR_CONFIG_MEM;
use crate::memory::VADDR_HEAP_BASE;
use crate::memory::VADDR_IO_BASE;
use crate::memory::VADDR_LINEAR_BASE;
use crate::memory::VADDR_SHARED_PAGE;
use crate::memory::VADDR_TLS_BASE;
use crate::memory::VADDR_VRAM_BASE;
use crate::memory::VRAM_SIZE;

pub struct MemoryRegions {
    pub fcram: Vec<u8>,
    pub vram: Vec<u8>,
    pub config_mem: Vec<u8>,
    pub shared_page: Vec<u8>,
    pub tls: Vec<u8>,
    pub io_regs: Vec<u8>,
}

pub const IO_SIZE: usize = 0x0040_0000;

/// Mathematical snapshot of all backing storage.
#[verifier::ext_equal]
pub struct RegionsSnap {
    pub fcram: Seq<u8>,
    pub vram: Seq<u8>,
    pub config_mem: Seq<u8>,
    pub shared_page: Seq<u8>,
    pub tls: Seq<u8>,
    pub io_regs: Seq<u8>,
}

impl View for MemoryRegions {
    type V = RegionsSnap;

    open spec fn view(&self) -> RegionsSnap {
        RegionsSnap {
            fcram: self.fcram@,
            vram: self.vram@,
            config_mem: self.config_mem@,
            shared_page: self.shared_page@,
            tls: self.tls@,
            io_regs: self.io_regs@,
        }
    }
}

impl RegionsSnap {
    pub open spec fn wf(self) -> bool {
        &&& self.fcram.len() == FCRAM_SIZE
        &&& self.vram.len() == VRAM_SIZE
        &&& self.config_mem.len() == CONFIG_MEM_SIZE
        &&& self.shared_page.len() == SHARED_PAGE_SIZE
        &&& self.tls.len() == TLS_SIZE
        &&& self.io_regs.len() == IO_SIZE
    }
}

/// Where a virtual address lands in FCRAM, if it lies in one of the three
/// FCRAM windows (code, heap, linear).  The heap window extends past the end
/// of FCRAM; such offsets are rejected by the callers' bound check.
pub open spec fn s_fcram_offset(addr: u32) -> Option<int> {
    if VADDR_CODE_BASE <= addr < VADDR_CODE_BASE + FCRAM_SIZE as u32 {
        Some(addr - VADDR_CODE_BASE)
    } else if VADDR_HEAP_BASE <= addr < VADDR_HEAP_BASE + FCRAM_SIZE as u32 {
        Some(addr - VADDR_HEAP_BASE + 0x0400_0000)
    } else if VADDR_LINEAR_BASE <= addr < VADDR_LINEAR_BASE + FCRAM_SIZE as u32 {
        Some(addr - VADDR_LINEAR_BASE)
    } else {
        None
    }
}

/// The byte a read of `addr` observes.
pub open spec fn s_read8(s: RegionsSnap, addr: u32) -> u8 {
    if s_fcram_offset(addr) is Some && s_fcram_offset(addr)->Some_0 < FCRAM_SIZE {
        s.fcram[s_fcram_offset(addr)->Some_0]
    } else if VADDR_VRAM_BASE <= addr < VADDR_VRAM_BASE + VRAM_SIZE as u32 {
        s.vram[addr - VADDR_VRAM_BASE]
    } else if VADDR_CONFIG_MEM <= addr < VADDR_CONFIG_MEM + CONFIG_MEM_SIZE as u32 {
        s.config_mem[addr - VADDR_CONFIG_MEM]
    } else if VADDR_SHARED_PAGE <= addr < VADDR_SHARED_PAGE + SHARED_PAGE_SIZE as u32 {
        s.shared_page[addr - VADDR_SHARED_PAGE]
    } else if VADDR_TLS_BASE <= addr < VADDR_TLS_BASE + TLS_SIZE as u32 {
        s.tls[addr - VADDR_TLS_BASE]
    } else if VADDR_IO_BASE <= addr < VADDR_IO_BASE + IO_SIZE as u32 {
        s.io_regs[addr - VADDR_IO_BASE]
    } else {
        0
    }
}

/// The storage after a write of `val` to `addr`.  The config page is
/// read-only and unmapped addresses swallow the write.
pub open spec fn s_write8(s: RegionsSnap, addr: u32, val: u8) -> RegionsSnap {
    if s_fcram_offset(addr) is Some && s_fcram_offset(addr)->Some_0 < FCRAM_SIZE {
        RegionsSnap { fcram: s.fcram.update(s_fcram_offset(addr)->Some_0, val), ..s }
    } else if VADDR_VRAM_BASE <= addr < VADDR_VRAM_BASE + VRAM_SIZE as u32 {
        RegionsSnap { vram: s.vram.update(addr - VADDR_VRAM_BASE, val), ..s }
    } else if VADDR_TLS_BASE <= addr < VADDR_TLS_BASE + TLS_SIZE as u32 {
        RegionsSnap { tls: s.tls.update(addr - VADDR_TLS_BASE, val), ..s }
    } else if VADDR_IO_BASE <= addr < VADDR_IO_BASE + IO_SIZE as u32 {
        RegionsSnap { io_regs: s.io_regs.update(addr - VADDR_IO_BASE, val), ..s }
    } else if VADDR_SHARED_PAGE <= addr < VADDR_SHARED_PAGE + SHARED_PAGE_SIZE as u32 {
        RegionsSnap { shared_page: s.shared_page.update(addr - VADDR_SHARED_PAGE, val), ..s }
    } else {
        s
    }
}

/// The config page contents after reset: kernel and firm version numbers,
/// the FCRAM size in little-endian, and zeroed type fields.
pub open spec fn s_config_init() -> Seq<u8> {
    Seq::new(
        CONFIG_MEM_SIZE as nat,
        |i: int|
            if i == 0x00 {
                2u8
            } else if i == 0x01 {
                57u8
            } else if i == 0x04 {
                2u8
            } else if i == 0x05 {
                57u8
            } else if i == 0x23 {
                8u8
            } else {
                0u8
            },
    )
}

/// All storage after reset.
pub open spec fn s_regions_new() -> RegionsSnap {
    RegionsSnap {
        fcram: Seq::new(FCRAM_SIZE as nat, |i: int| 0u8),
        vram: Seq::new(VRAM_SIZE as nat, |i: int| 0u8),
        config_mem: s_config_init(),
        shared_page: Seq::new(SHARED_PAGE_SIZE as nat, |i: int| 0u8),
        tls: Seq::new(TLS_SIZE as nat, |i: int| 0u8),
        io_regs: Seq::new(IO_SIZE as nat, |i: int| 0u8),
    }
}

impl MemoryRegions {
    pub fn new() -> (r: Self)
        ensures
            r@ == s_regions_new(),
            r@.wf(),
    {
        let mut regions = Self {
            fcram: vec![0u8; FCRAM_SIZE],
            vram: vec![0u8; VRAM_SIZE],
            config_mem: vec![0u8; CONFIG_MEM_SIZE],
            shared_page: vec![0u8; SHARED_PAGE_SIZE],
            tls: vec![0u8; TLS_SIZE],
            io_regs: vec![0u8; IO_SIZE],
        };
        regions.init_config_mem();
        proof {
            assert(regions@.fcram =~= s_regions_new().fcram);
            assert(regions@.vram =~= s_regions_new().vram);
            assert(regions@.config_mem =~= s_regions_new().config_mem);
            assert(regions@.shared_page =~= s_regions_new().shared_page);
            assert(regions@.tls =~= s_regions_new().tls);
            assert(regions@.io_regs =~= s_regions_new().io_regs);
            assert(regions@ =~= s_regions_new());
        }
        regions
    }

    fn init_config_mem(&mut self)
        requires
            old(self)@.config_mem =~= Seq::new(CONFIG_MEM_SIZE as nat, |i: int| 0u8),
            old(self)@.config_mem.len() == CONFIG_MEM_SIZE,
        ensures
            final(self)@ == (RegionsSnap { config_mem: s_config_init(), ..old(self)@ }),
    {
        self.config_mem[0x00] = 2;
        self.config_mem[0x01] = 57;
        self.config_mem[0x04] = 2;
        self.config_mem[0x05] = 57;
        self.config_mem[0x20] = 0x00;
        self.config_mem[0x21] = 0x00;
        self.config_mem[0x22] = 0x00;
        self.config_mem[0x23] = 0x08;
        self.config_mem[0x30] = 0;
        self.config_mem[0x40] = 0;
        proof {
            assert(self@.config_mem =~= s_config_init());
            assert(self@ =~= (RegionsSnap { config_mem: s_config_init(), ..old(self)@ }));
        }
    }

    fn fcram_offset(addr: u32) -> (r: Option<usize>)
        ensures
            r is Some <==> s_fcram_offset(addr) is Some,
            r is Some ==> r->Some_0 == s_fcram_offset(addr)->Some_0,
    {
        if addr >= VADDR_CODE_BASE && addr < VADDR_CODE_BASE + FCRAM_SIZE as u32 {
            return Some((addr - VADDR_CODE_BASE) as usize);
        }
        if addr >= VADDR_HEAP_BASE && addr < VADDR_HEAP_BASE + FCRAM_SIZE as u32 {
            return Some((addr - VADDR_HEAP_BASE + 0x0400_0000) as usize);
        }
        if addr >= VADDR_LINEAR_BASE && addr < VADDR_LINEAR_BASE + FCRAM_SIZE as u32 {
            return Some((addr - VADDR_LINEAR_BASE) as usize);
        }
        None
    }

    pub fn read8(&self, addr: u32) -> (r: u8)
        requires
            self@.wf(),
        ensures
            r == s_read8(self@, addr),
    {
        if let Some(off) = Self::fcram_offset(addr) {
            if off < self.fcram.len() {
                return self.fcram[off];
            }
        }
        if addr >= VADDR_VRAM_BASE && addr < VADDR_VRAM_BASE + VRAM_SIZE as u32 {
            return self.vram[(addr - VADDR_VRAM_BASE) as usize];
        }
        if addr >= VADDR_CONFIG_MEM && addr < VADDR_CONFIG_MEM + CONFIG_MEM_SIZE as u32 {
            return self.config_mem[(addr - VADDR_CONFIG_MEM) as usize];
        }
        if addr >= VADDR_SHARED_PAGE && addr < VADDR_SHARED_PAGE + SHARED_PAGE_SIZE as u32 {
            return self.shared_page[(addr - VADDR_SHARED_PAGE) as usize];
        }
        if addr >= VADDR_TLS_BASE && addr < VADDR_TLS_BASE + TLS_SIZE as u32 {
            return self.tls[(addr - VADDR_TLS_BASE) as usize];
        }
        if addr >= VADDR_IO_BASE && addr < VADDR_IO_BASE + IO_SIZE as u32 {
            return self.io_regs[(addr - VADDR_IO_BASE) as usize];
        }
        0
    }

    pub fn write8(&mut self, addr: u32, val: u8)
        requires
            old(self)@.wf(),
        ensures
            final(self)@ == s_write8(old(self)@, addr, val),
            final(self)@.wf(),
    {
        if let Some(off) = Self::fcram_offset(addr) {
            if off < self.fcram.len() {
                self.fcram[off] = val;
                proof {
                    assert(self@ =~= s_write8(old(self)@, addr, val));
                }
                return ;
            }
        }
        if addr >= VADDR_VRAM_BASE && addr < VADDR_VRAM_BASE + VRAM_SIZE as u32 {
            self.vram[(addr - VADDR_VRAM_BASE) as usize] = val;
            proof {
                assert(self@ =~= s_write8(old(self)@, addr, val));
            }
            return ;
        }
        if addr >= VADDR_TLS_BASE && addr < VADDR_TLS_BASE + TLS_SIZE as u32 {
            self.tls[(addr - VADDR_TLS_BASE) as usize] = val;
            proof {
                assert(self@ =~= s_write8(old(self)@, addr, val));
            }
            return ;
        }
        if addr >= VADDR_IO_BASE && addr < VADDR_IO_BASE + IO_SIZE as u32 {
            self.io_regs[(addr - VADDR_IO_BASE) as usize] = val;
            proof {
                assert(self@ =~= s_write8(old(self)@, addr, val));
            }
            return ;
        }
        if addr >= VADDR_SHARED_PAGE && addr < VADDR_SHARED_PAGE + SHARED_PAGE_SIZE as u32 {
            self.shared_page[(addr - VADDR_SHARED_PAGE) as usize] = val;
            proof {
                assert(self@ =~= s_write8(old(self)@, addr, val));
            }
            return ;
        }
        proof {
            assert(self@ =~= s_write8(old(self)@, addr, val));
        }
    }

    /// A read view of a run of FCRAM bytes.
    pub fn fcram_slice(&self, offset: usize, len: usize) -> (r: &[u8])
        requires
            offset + len <= self@.fcram.len(),
            self@.fcram.len() <= usize::MAX,
        ensures
            r@ == self@.fcram.subrange(offset as int, offset + len),
    {
        vstd::slice::slice_subrange(self.fcram.as_slice(), offset, offset + len)
    }
}

} // verus!
