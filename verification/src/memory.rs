//! Flat 32-bit little-endian byte memory over the region map, plus the bump
//! heap allocator.  All multi-byte accesses are composed of byte accesses at
//! consecutive increasing addresses; address arithmetic wraps modulo 2^32.

use vstd::prelude::*;

pub mod mmu;
pub mod regions;

verus! {

use crate::memory::regions::MemoryRegions;
use crate::memory::regions::RegionsSnap;
use crate::memory::regions::s_read8;
use crate::memory::regions::s_regions_new;
use crate::memory::regions::s_write8;

pub const FCRAM_SIZE: usize = 128 * 1024 * 1024;

pub const VRAM_SIZE: usize = 6 * 1024 * 1024;

pub const CONFIG_MEM_SIZE: usize = 0x1000;

pub const SHARED_PAGE_SIZE: usize = 0x1000;

pub const TLS_SIZE: usize = 0x1000;

pub const VADDR_CODE_BASE: u32 = 0x0010_0000;

pub const VADDR_HEAP_BASE: u32 = 0x0800_0000;

pub const VADDR_LINEAR_BASE: u32 = 0x1400_0000;

pub const VADDR_IO_BASE: u32 = 0x1EC0_0000;

pub const VADDR_VRAM_BASE: u32 = 0x1F00_0000;

pub const VADDR_DSP_BASE: u32 = 0x1FF0_0000;

pub const VADDR_CONFIG_MEM: u32 = 0x1FF8_0000;

pub const VADDR_SHARED_PAGE: u32 = 0x1FF8_1000;

pub const VADDR_TLS_BASE: u32 = 0x1FF8_2000;

pub struct Memory {
    pub regions: MemoryRegions,
    pub heap_end: u32,
}

/// Mathematical snapshot of memory: the backing regions and the bump
/// allocator's high-water mark.
#[verifier::ext_equal]
pub struct MemSnap {
    pub regions: RegionsSnap,
    pub heap_end: u32,
}

impl View for Memory {
    type V = MemSnap;

    open spec fn view(&self) -> MemSnap {
        MemSnap { regions: self.regions@, heap_end: self.heap_end }
    }
}

impl MemSnap {
    pub open spec fn wf(self) -> bool {
        self.regions.wf()
    }
}

pub open spec fn s_mem_new() -> MemSnap {
    MemSnap { regions: s_regions_new(), heap_end: VADDR_HEAP_BASE }
}

pub open spec fn s_mem_read8(m: MemSnap, addr: u32) -> u8 {
    s_read8(m.regions, addr)
}

pub open spec fn s_mem_write8(m: MemSnap, addr: u32, val: u8) -> MemSnap {
    MemSnap { regions: s_write8(m.regions, addr, val), ..m }
}

/// A 16-bit read: low byte at `addr`, high byte at the next address.
pub open spec fn s_mem_read16(m: MemSnap, addr: u32) -> u16 {
    (s_mem_read8(m, addr) as u16) | ((s_mem_read8(m, addr.wrapping_add(1)) as u16) << 8u16)
}

/// A 32-bit read: low half at `addr`, high half two bytes on.
pub open spec fn s_mem_read32(m: MemSnap, addr: u32) -> u32 {
    (s_mem_read16(m, addr) as u32) | ((s_mem_read16(m, addr.wrapping_add(2)) as u32) << 16u32)
}

pub open spec fn s_mem_write16(m: MemSnap, addr: u32, val: u16) -> MemSnap {
    s_mem_write8(s_mem_write8(m, addr, val as u8), addr.wrapping_add(1), (val >> 8u16) as u8)
}

pub open spec fn s_mem_write32(m: MemSnap, addr: u32, val: u32) -> MemSnap {
    s_mem_write16(s_mem_write16(m, addr, val as u16), addr.wrapping_add(2), (val >> 16u32) as u16)
}

/// A block write laid down byte by byte at increasing addresses.
pub open spec fn s_mem_write_block(m: MemSnap, addr: u32, data: Seq<u8>) -> MemSnap
    decreases data.len(),
{
    if data.len() == 0 {
        m
    } else {
        s_mem_write_block(s_mem_write8(m, addr, data.first()), addr.wrapping_add(1), data.drop_first())
    }
}

/// Appending one byte to a block write is a write of that byte after the
/// block.
pub proof fn lemma_write_block_push(m: MemSnap, addr: u32, data: Seq<u8>, x: u8)
    requires
        data.len() < 0x1_0000_0000,
    ensures
        s_mem_write_block(m, addr, data.push(x)) == s_mem_write8(
            s_mem_write_block(m, addr, data),
            addr.wrapping_add(data.len() as u32),
            x,
        ),
    decreases data.len(),
{
    if data.len() == 0 {
        let d1 = data.push(x);
        assert(d1.drop_first() =~= Seq::<u8>::empty());
        assert(d1.first() == x);
        assert(s_mem_write_block(m, addr, d1) == s_mem_write_block(
            s_mem_write8(m, addr, x),
            addr.wrapping_add(1),
            Seq::<u8>::empty(),
        ));
        assert(s_mem_write_block(s_mem_write8(m, addr, x), addr.wrapping_add(1), Seq::<u8>::empty())
            == s_mem_write8(m, addr, x));
        assert(addr.wrapping_add(0u32) == addr);
    } else {
        assert(data.push(x).drop_first() =~= data.drop_first().push(x));
        assert(data.push(x).first() == data.first());
        lemma_write_block_push(
            s_mem_write8(m, addr, data.first()),
            addr.wrapping_add(1),
            data.drop_first(),
            x,
        );
        assert(addr.wrapping_add(1).wrapping_add(data.drop_first().len() as u32)
            == addr.wrapping_add(data.len() as u32));
    }
}

/// A run of words laid down at consecutive word addresses.
pub open spec fn s_mem_write_words(m: MemSnap, addr: u32, words: Seq<u32>) -> MemSnap
    decreases words.len(),
{
    if words.len() == 0 {
        m
    } else {
        s_mem_write_words(
            s_mem_write32(m, addr, words.first()),
            addr.wrapping_add(4),
            words.drop_first(),
        )
    }
}

/// Appending one word to a word-block write is a write of that word after
/// the block.
pub proof fn lemma_write_words_push(m: MemSnap, addr: u32, words: Seq<u32>, x: u32)
    requires
        words.len() < 0x4000_0000,
    ensures
        s_mem_write_words(m, addr, words.push(x)) == s_mem_write32(
            s_mem_write_words(m, addr, words),
            addr.wrapping_add((4 * words.len()) as u32),
            x,
        ),
    decreases words.len(),
{
    if words.len() == 0 {
        let d1 = words.push(x);
        assert(d1.drop_first() =~= Seq::<u32>::empty());
        assert(d1.first() == x);
        assert(s_mem_write_words(m, addr, d1) == s_mem_write_words(
            s_mem_write32(m, addr, x),
            addr.wrapping_add(4),
            Seq::<u32>::empty(),
        ));
        assert(addr.wrapping_add(0u32) == addr);
    } else {
        assert(words.push(x).drop_first() =~= words.drop_first().push(x));
        assert(words.push(x).first() == words.first());
        lemma_write_words_push(
            s_mem_write32(m, addr, words.first()),
            addr.wrapping_add(4),
            words.drop_first(),
            x,
        );
        assert(addr.wrapping_add(4).wrapping_add((4 * words.drop_first().len()) as u32)
            == addr.wrapping_add((4 * words.len()) as u32));
    }
}


/// Within the code window distinct addresses back distinct bytes: a write is
/// read back at its own address and invisible at every other window address.
pub proof fn lemma_code_window_write8(m: MemSnap, w: u32, v: u8, x: u32)
    requires
        m.wf(),
        VADDR_CODE_BASE <= w < VADDR_CODE_BASE + FCRAM_SIZE as u32,
        VADDR_CODE_BASE <= x < VADDR_CODE_BASE + FCRAM_SIZE as u32,
    ensures
        s_mem_read8(s_mem_write8(m, w, v), x) == (if x == w {
            v
        } else {
            s_mem_read8(m, x)
        }),
        s_mem_write8(m, w, v).wf(),
        s_mem_write8(m, w, v).heap_end == m.heap_end,
{
}

/// Reading under a block write that stays inside the code window: addresses
/// inside the block see the block's bytes, all other window addresses are
/// untouched.
pub proof fn lemma_code_window_write_block(m: MemSnap, a: u32, d: Seq<u8>, x: u32)
    requires
        m.wf(),
        VADDR_CODE_BASE <= a,
        a + d.len() <= VADDR_CODE_BASE + FCRAM_SIZE as u32,
        VADDR_CODE_BASE <= x < VADDR_CODE_BASE + FCRAM_SIZE as u32,
    ensures
        s_mem_read8(s_mem_write_block(m, a, d), x) == (if a <= x < a + d.len() {
            d[x - a]
        } else {
            s_mem_read8(m, x)
        }),
        s_mem_write_block(m, a, d).wf(),
        s_mem_write_block(m, a, d).heap_end == m.heap_end,
    decreases d.len(),
{
    if d.len() > 0 {
        lemma_code_window_write8(m, a, d.first(), x);
        assert(a.wrapping_add(1) == a + 1);
        lemma_code_window_write_block(
            s_mem_write8(m, a, d.first()),
            a.wrapping_add(1),
            d.drop_first(),
            x,
        );
    }
}

/// The bump allocator: page-align the size up and advance the high-water
/// mark, returning its previous value.
pub open spec fn s_page_align(size: u32) -> u32 {
    size.wrapping_add(0xFFF) & !0xFFFu32
}

impl Memory {
    pub fn new() -> (m: Self)
        ensures
            m@ == s_mem_new(),
            m@.wf(),
    {
        let m = Self { regions: MemoryRegions::new(), heap_end: VADDR_HEAP_BASE };
        proof {
            assert(m@ =~= s_mem_new());
        }
        m
    }

    pub fn read8(&self, addr: u32) -> (r: u8)
        requires
            self@.wf(),
        ensures
            r == s_mem_read8(self@, addr),
    {
        self.regions.read8(addr)
    }

    pub fn read16(&self, addr: u32) -> (r: u16)
        requires
            self@.wf(),
        ensures
            r == s_mem_read16(self@, addr),
    {
        let lo = self.read8(addr) as u16;
        let hi = self.read8(addr.wrapping_add(1)) as u16;
        lo | (hi << 8)
    }

    pub fn read32(&self, addr: u32) -> (r: u32)
        requires
            self@.wf(),
        ensures
            r == s_mem_read32(self@, addr),
    {
        let lo = self.read16(addr) as u32;
        let hi = self.read16(addr.wrapping_add(2)) as u32;
        lo | (hi << 16)
    }

    pub fn write8(&mut self, addr: u32, val: u8)
        requires
            old(self)@.wf(),
        ensures
            final(self)@ == s_mem_write8(old(self)@, addr, val),
            final(self)@.wf(),
    {
        self.regions.write8(addr, val);
        proof {
            assert(self@ =~= s_mem_write8(old(self)@, addr, val));
        }
    }

    pub fn write16(&mut self, addr: u32, val: u16)
        requires
            old(self)@.wf(),
        ensures
            final(self)@ == s_mem_write16(old(self)@, addr, val),
            final(self)@.wf(),
    {
        self.write8(addr, val as u8);
        self.write8(addr.wrapping_add(1), (val >> 8) as u8);
    }

    pub fn write32(&mut self, addr: u32, val: u32)
        requires
            old(self)@.wf(),
        ensures
            final(self)@ == s_mem_write32(old(self)@, addr, val),
            final(self)@.wf(),
    {
        self.write16(addr, val as u16);
        self.write16(addr.wrapping_add(2), (val >> 16) as u16);
    }

    pub fn write_block(&mut self, addr: u32, data: &[u8])
        requires
            old(self)@.wf(),
            data@.len() < 0x1_0000_0000,
        ensures
            final(self)@ == s_mem_write_block(old(self)@, addr, data@),
            final(self)@.wf(),
    {
        let n = data.len();
        let mut i: usize = 0;
        while i < n
            invariant
                i <= n,
                n == data@.len(),
                n < 0x1_0000_0000,
                self@ == s_mem_write_block(old(self)@, addr, data@.take(i as int)),
                self@.wf(),
            decreases n - i,
        {
            self.write8(addr.wrapping_add(i as u32), data[i]);
            proof {
                lemma_write_block_push(old(self)@, addr, data@.take(i as int), data@[i as int]);
                assert(data@.take(i as int).push(data@[i as int]) =~= data@.take(i + 1));
            }
            i = i + 1;
        }
        proof {
            assert(data@.take(n as int) =~= data@);
        }
    }

    pub fn read_block(&self, addr: u32, len: usize) -> (r: Vec<u8>)
        requires
            self@.wf(),
        ensures
            r@.len() == len,
            forall|i: int|
                0 <= i < len ==> r@[i] == s_mem_read8(self@, addr.wrapping_add(i as u32)),
    {
        let mut r: Vec<u8> = Vec::new();
        let mut i: usize = 0;
        while i < len
            invariant
                i <= len,
                r@.len() == i,
                self@.wf(),
                forall|j: int|
                    0 <= j < i ==> r@[j] == s_mem_read8(self@, addr.wrapping_add(j as u32)),
            decreases len - i,
        {
            let b = self.read8(addr.wrapping_add(i as u32));
            r.push(b);
            i = i + 1;
        }
        r
    }

    pub fn alloc_heap(&mut self, size: u32) -> (addr: u32)
        ensures
            addr == old(self)@.heap_end,
            final(self)@ == (MemSnap {
                heap_end: old(self)@.heap_end.wrapping_add(s_page_align(size)),
                ..old(self)@
            }),
    {
        let aligned = size.wrapping_add(0xFFF) & !0xFFF;
        let addr = self.heap_end;
        self.heap_end = self.heap_end.wrapping_add(aligned);
        proof {
            assert(self@ =~= (MemSnap {
                heap_end: old(self)@.heap_end.wrapping_add(s_page_align(size)),
                ..old(self)@
            }));
        }
        addr
    }

    pub fn heap_end(&self) -> (r: u32)
        ensures
            r == self@.heap_end,
    {
        self.heap_end
    }
}

} // verus!
