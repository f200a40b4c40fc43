//! The homebrew executable format: a 32-byte header, three relocation
//! headers, the code / read-only / data segment images, and the relocation
//! entries.  Segments are placed page-aligned from the base address; BSS
//! follows the data image zero-filled.

use vstd::prelude::*;

verus! {

use crate::memory::MemSnap;
use crate::memory::Memory;
use crate::memory::s_mem_read8;
use crate::memory::s_mem_read32;
use crate::memory::s_mem_write8;
use crate::memory::s_mem_write32;
use crate::memory::s_mem_write_block;
use crate::memory::lemma_write_block_push;

pub const HEADER_SIZE: usize = 32;

pub struct ThreeDsxHeader {
    pub magic: [u8; 4],
    pub header_size: u16,
    pub reloc_header_size: u16,
    pub format_version: u32,
    pub flags: u32,
    pub code_seg_size: u32,
    pub rodata_seg_size: u32,
    pub data_seg_size: u32,
    pub bss_size: u32,
}

/// A little-endian 16-bit field, zero when it runs off the end.
pub open spec fn s_rd16(data: Seq<u8>, offset: int) -> u16 {
    if offset + 2 > data.len() || offset < 0 {
        0u16
    } else {
        (data[offset] as u16) | ((data[offset + 1] as u16) << 8u16)
    }
}

/// A little-endian 32-bit field, zero when it runs off the end.
pub open spec fn s_rd32(data: Seq<u8>, offset: int) -> u32 {
    if offset + 4 > data.len() || offset < 0 {
        0u32
    } else {
        (data[offset] as u32) | ((data[offset + 1] as u32) << 8u32) | ((data[offset + 2] as u32)
            << 16u32) | ((data[offset + 3] as u32) << 24u32)
    }
}

fn read_u16(data: &[u8], offset: usize) -> (r: u16)
    ensures
        r == s_rd16(data@, offset as int),
{
    if data.len() < 2 || offset > data.len() - 2 {
        return 0;
    }
    (data[offset] as u16) | ((data[offset + 1] as u16) << 8)
}

fn read_u32(data: &[u8], offset: usize) -> (r: u32)
    ensures
        r == s_rd32(data@, offset as int),
{
    if data.len() < 4 || offset > data.len() - 4 {
        return 0;
    }
    (data[offset] as u32) | ((data[offset + 1] as u32) << 8) | ((data[offset + 2] as u32) << 16) | (
    (data[offset + 3] as u32) << 24)
}

/// Whether the image begins with the format magic `3DSX`.
pub open spec fn s_check_magic(data: Seq<u8>) -> bool {
    data.len() >= 4 && data[0] == 0x33 && data[1] == 0x44 && data[2] == 0x53 && data[3] == 0x58
}

pub fn check_magic(data: &[u8]) -> (r: bool)
    ensures
        r == s_check_magic(data@),
{
    data.len() >= 4 && data[0] == 0x33 && data[1] == 0x44 && data[2] == 0x53 && data[3] == 0x58
}

pub fn parse_header(data: &[u8]) -> (r: Option<ThreeDsxHeader>)
    ensures
        r is Some <==> data@.len() >= HEADER_SIZE && s_check_magic(data@),
        r is Some ==> {
            let h = r->Some_0;
            &&& h.magic@ == data@.subrange(0, 4)
            &&& h.header_size == s_rd16(data@, 4)
            &&& h.reloc_header_size == s_rd16(data@, 6)
            &&& h.format_version == s_rd32(data@, 8)
            &&& h.flags == s_rd32(data@, 12)
            &&& h.code_seg_size == s_rd32(data@, 16)
            &&& h.rodata_seg_size == s_rd32(data@, 20)
            &&& h.data_seg_size == s_rd32(data@, 24)
            &&& h.bss_size == s_rd32(data@, 28)
        },
{
    if data.len() < HEADER_SIZE {
        return None;
    }
    if !check_magic(data) {
        return None;
    }

    let magic: [u8; 4] = [data[0], data[1], data[2], data[3]];
    let h = ThreeDsxHeader {
        magic,
        header_size: read_u16(data, 4),
        reloc_header_size: read_u16(data, 6),
        format_version: read_u32(data, 8),
        flags: read_u32(data, 12),
        code_seg_size: read_u32(data, 16),
        rodata_seg_size: read_u32(data, 20),
        data_seg_size: read_u32(data, 24),
        bss_size: read_u32(data, 28),
    };
    proof {
        assert(h.magic@ =~= data@.subrange(0, 4));
    }
    Some(h)
}

/// Sizes page-aligned up to the placement granule.
pub open spec fn s_page_up(size: u32) -> u32 {
    size.wrapping_add(0xFFF) & !0xFFFu32
}

fn page_align(size: u32) -> (r: u32)
    ensures
        r == s_page_up(size),
{
    size.wrapping_add(0xFFF) & !0xFFF
}

/// One run of absolute patches: each targeted word gains the base address.
pub open spec fn s_patch_abs(m: MemSnap, pos: u32, n: u32, base_addr: u32) -> (MemSnap, u32)
    decreases n,
{
    if n == 0 {
        (m, pos)
    } else {
        let val = s_mem_read32(m, pos);
        s_patch_abs(
            s_mem_write32(m, pos, val.wrapping_add(base_addr)),
            pos.wrapping_add(4),
            (n - 1) as u32,
            base_addr,
        )
    }
}

/// One run of cross-segment patches: the stored word encodes a target
/// segment in its low four bits and a word offset above; unknown targets
/// fall back to adding the base address.
pub open spec fn s_patch_rel(
    m: MemSnap,
    pos: u32,
    n: u32,
    base_addr: u32,
    seg0: u32,
    seg1: u32,
    seg2: u32,
) -> (MemSnap, u32)
    decreases n,
{
    if n == 0 {
        (m, pos)
    } else {
        let val = s_mem_read32(m, pos);
        let target_seg = val & 0xF;
        let offset = val >> 4u32;
        let newval = if target_seg == 0 {
            seg0.wrapping_add(offset)
        } else if target_seg == 1 {
            seg1.wrapping_add(offset)
        } else if target_seg == 2 {
            seg2.wrapping_add(offset)
        } else {
            val.wrapping_add(base_addr)
        };
        s_patch_rel(
            s_mem_write32(m, pos, newval),
            pos.wrapping_add(4),
            (n - 1) as u32,
            base_addr,
            seg0,
            seg1,
            seg2,
        )
    }
}

/// A run of relocation entries of one kind for one segment.  Each entry
/// skips words, then patches a consecutive run; the walk stops early when
/// the entry itself would run off the file.
pub open spec fn s_reloc_entries(
    m: MemSnap,
    data: Seq<u8>,
    pos: u32,
    reloc_pos: int,
    count: u32,
    is_abs: bool,
    base_addr: u32,
    seg0: u32,
    seg1: u32,
    seg2: u32,
) -> (MemSnap, int)
    decreases count,
{
    if count == 0 {
        (m, reloc_pos)
    } else if reloc_pos + 4 > data.len() {
        (m, reloc_pos)
    } else {
        let entry = s_rd32(data, reloc_pos);
        let skip = entry & 0xFFFF;
        let patch = (entry >> 16u32) & 0xFFFF;
        let pos1 = pos.wrapping_add((skip * 4) as u32);
        let patched = if is_abs {
            s_patch_abs(m, pos1, patch, base_addr)
        } else {
            s_patch_rel(m, pos1, patch, base_addr, seg0, seg1, seg2)
        };
        s_reloc_entries(
            patched.0,
            data,
            patched.1,
            reloc_pos + 4,
            (count - 1) as u32,
            is_abs,
            base_addr,
            seg0,
            seg1,
            seg2,
        )
    }
}

/// The relocation pass for segments `seg..3`.
pub open spec fn s_reloc_segs(
    m: MemSnap,
    data: Seq<u8>,
    reloc_pos: int,
    seg: int,
    reloc_headers_offset: int,
    reloc_hdr_size: int,
    base_addr: u32,
    seg0: u32,
    seg1: u32,
    seg2: u32,
) -> MemSnap
    decreases 3 - seg,
{
    if seg >= 3 {
        m
    } else if reloc_hdr_size < 8 {
        s_reloc_segs(
            m,
            data,
            reloc_pos,
            seg + 1,
            reloc_headers_offset,
            reloc_hdr_size,
            base_addr,
            seg0,
            seg1,
            seg2,
        )
    } else {
        let rh_off = reloc_headers_offset + seg * reloc_hdr_size;
        let abs_count = s_rd32(data, rh_off);
        let rel_count = s_rd32(data, rh_off + 4);
        let seg_base = if seg == 0 {
            seg0
        } else if seg == 1 {
            seg1
        } else {
            seg2
        };
        let after_abs = s_reloc_entries(
            m,
            data,
            seg_base,
            reloc_pos,
            abs_count,
            true,
            base_addr,
            seg0,
            seg1,
            seg2,
        );
        let after_rel = s_reloc_entries(
            after_abs.0,
            data,
            seg_base,
            after_abs.1,
            rel_count,
            false,
            base_addr,
            seg0,
            seg1,
            seg2,
        );
        s_reloc_segs(
            after_rel.0,
            data,
            after_rel.1,
            seg + 1,
            reloc_headers_offset,
            reloc_hdr_size,
            base_addr,
            seg0,
            seg1,
            seg2,
        )
    }
}

/// Segment placement: read-only data follows code page-aligned up, data
/// follows read-only data page-aligned up, BSS follows the data image.
pub open spec fn s_seg_addrs(data: Seq<u8>, base_addr: u32) -> (u32, u32, u32, u32) {
    let code_size = s_rd32(data, 16);
    let rodata_size = s_rd32(data, 20);
    let bss_size = s_rd32(data, 28);
    let data_total = s_rd32(data, 24);
    let data_disk = if data_total >= bss_size {
        (data_total - bss_size) as u32
    } else {
        0u32
    };
    let rodata_addr = base_addr.wrapping_add(s_page_up(code_size));
    let data_addr = rodata_addr.wrapping_add(s_page_up(rodata_size));
    let bss_addr = data_addr.wrapping_add(data_disk);
    (rodata_addr, data_addr, bss_addr, data_disk)
}

/// Whether the file holds all three segment images.
pub open spec fn s_load_fits(data: Seq<u8>) -> bool {
    let hdr_size = s_rd16(data, 4) as int;
    let reloc_hdr_size = s_rd16(data, 6) as int;
    let segments_offset = hdr_size + reloc_hdr_size * 3;
    let code_size = s_rd32(data, 16) as int;
    let rodata_size = s_rd32(data, 20) as int;
    let bss_size = s_rd32(data, 28) as int;
    let data_total = s_rd32(data, 24) as int;
    let data_disk = if data_total >= bss_size {
        data_total - bss_size
    } else {
        0
    };
    data.len() >= segments_offset + code_size + rodata_size + data_disk
}

/// The memory an accepted load leaves behind: the three segment images, the
/// zero-filled BSS, and the relocation passes.
pub open spec fn s_load_mem(data: Seq<u8>, m: MemSnap, base_addr: u32) -> MemSnap {
    let hdr_size = s_rd16(data, 4) as int;
    let reloc_hdr_size = s_rd16(data, 6) as int;
    let segments_offset = hdr_size + reloc_hdr_size * 3;
    let code_size = s_rd32(data, 16) as int;
    let rodata_size = s_rd32(data, 20) as int;
    let bss_size = s_rd32(data, 28) as int;
    let addrs = s_seg_addrs(data, base_addr);
    let data_disk = addrs.3 as int;
    let m1 = s_mem_write_block(
        m,
        base_addr,
        data.subrange(segments_offset, segments_offset + code_size),
    );
    let m2 = s_mem_write_block(
        m1,
        addrs.0,
        data.subrange(segments_offset + code_size, segments_offset + code_size + rodata_size),
    );
    let m3 = s_mem_write_block(
        m2,
        addrs.1,
        data.subrange(
            segments_offset + code_size + rodata_size,
            segments_offset + code_size + rodata_size + data_disk,
        ),
    );
    let m4 = s_mem_write_block(m3, addrs.2, Seq::new(bss_size as nat, |i: int| 0u8));
    let reloc_data_offset = segments_offset + code_size + rodata_size + data_disk;
    s_reloc_segs(
        m4,
        data,
        reloc_data_offset,
        0,
        hdr_size,
        reloc_hdr_size,
        base_addr,
        base_addr,
        addrs.0,
        addrs.1,
    )
}


/// Loading round trip: an image with no relocation entries, placed inside
/// the code window, lands its code bytes exactly at the base address and
/// zero-fills BSS right after the page-aligned segments and the data image.
pub proof fn lemma_load_round_trip(data: Seq<u8>, m: MemSnap, base_addr: u32)
    requires
        m.wf(),
        data.len() >= HEADER_SIZE,
        s_check_magic(data),
        s_load_fits(data),
        s_rd16(data, 6) == 8,
        forall|seg: int|
            0 <= seg < 3 ==> s_rd32(data, #[trigger] (s_rd16(data, 4) + seg * 8)) == 0 && s_rd32(
                data,
                s_rd16(data, 4) + seg * 8 + 4,
            ) == 0,
        crate::memory::VADDR_CODE_BASE <= base_addr,
        s_rd32(data, 16) + 0xFFF < 0x1_0000_0000,
        s_rd32(data, 20) + 0xFFF < 0x1_0000_0000,
        base_addr + s_page_up(s_rd32(data, 16)) + s_page_up(s_rd32(data, 20)) + s_seg_addrs(
            data,
            base_addr,
        ).3 + s_rd32(data, 28) <= crate::memory::VADDR_CODE_BASE
            + crate::memory::FCRAM_SIZE as u32,
    ensures
        ({
            let so = s_rd16(data, 4) + 3 * (s_rd16(data, 6) as int);
            forall|i: int|
                0 <= i < s_rd32(data, 16) ==> s_mem_read8(
                    s_load_mem(data, m, base_addr),
                    #[trigger] ((base_addr + i) as u32),
                ) == data[so + i]
        }),
        ({
            let bss_addr = s_seg_addrs(data, base_addr).2;
            forall|i: int|
                0 <= i < s_rd32(data, 28) ==> s_mem_read8(
                    s_load_mem(data, m, base_addr),
                    #[trigger] ((bss_addr + i) as u32),
                ) == 0
        }),
{
    let hdr = s_rd16(data, 4) as int;
    let so = hdr + 24;
    let code_size = s_rd32(data, 16) as int;
    let rodata_size = s_rd32(data, 20) as int;
    let bss_size = s_rd32(data, 28) as int;
    let addrs = s_seg_addrs(data, base_addr);
    let data_disk = addrs.3 as int;
    let pa_code = s_page_up(s_rd32(data, 16));
    let pa_ro = s_page_up(s_rd32(data, 20));
    let xc = (s_rd32(data, 16) + 0xFFF) as u32;
    let xr = (s_rd32(data, 20) + 0xFFF) as u32;
    assert(xc & !0xFFFu32 <= xc && xc <= (xc & !0xFFFu32) + 0xFFF) by (bit_vector);
    assert(xr & !0xFFFu32 <= xr && xr <= (xr & !0xFFFu32) + 0xFFF) by (bit_vector);
    assert(code_size <= pa_code <= code_size + 0xFFF);
    assert(rodata_size <= pa_ro <= rodata_size + 0xFFF);

    let code_img = data.subrange(so, so + code_size);
    let ro_img = data.subrange(so + code_size, so + code_size + rodata_size);
    let data_img = data.subrange(so + code_size + rodata_size, so + code_size + rodata_size + data_disk);
    let zeros = Seq::new(bss_size as nat, |i: int| 0u8);
    let m1 = s_mem_write_block(m, base_addr, code_img);
    let m2 = s_mem_write_block(m1, addrs.0, ro_img);
    let m3 = s_mem_write_block(m2, addrs.1, data_img);
    let m4 = s_mem_write_block(m3, addrs.2, zeros);

    // With every relocation count zero the relocation pass is the identity.
    let off = so + code_size + rodata_size + data_disk;
    assert(s_reloc_entries(m4, data, base_addr, off, 0, true, base_addr, base_addr, addrs.0, addrs.1)
        == (m4, off));
    assert(s_reloc_segs(m4, data, off, 0, hdr, 8, base_addr, base_addr, addrs.0, addrs.1)
        == s_reloc_segs(m4, data, off, 1, hdr, 8, base_addr, base_addr, addrs.0, addrs.1));
    assert(s_reloc_segs(m4, data, off, 1, hdr, 8, base_addr, base_addr, addrs.0, addrs.1)
        == s_reloc_segs(m4, data, off, 2, hdr, 8, base_addr, base_addr, addrs.0, addrs.1));
    assert(s_reloc_segs(m4, data, off, 2, hdr, 8, base_addr, base_addr, addrs.0, addrs.1)
        == s_reloc_segs(m4, data, off, 3, hdr, 8, base_addr, base_addr, addrs.0, addrs.1));
    assert(s_load_mem(data, m, base_addr) == m4);

    let wbase = crate::memory::VADDR_CODE_BASE;
    let wend = crate::memory::VADDR_CODE_BASE + crate::memory::FCRAM_SIZE as u32;

    assert forall|i: int| 0 <= i < code_size implies s_mem_read8(
        s_load_mem(data, m, base_addr),
        #[trigger] ((base_addr + i) as u32),
    ) == data[so + i] by {
        let x = (base_addr + i) as u32;
        crate::memory::lemma_code_window_write_block(m, base_addr, code_img, x);
        crate::memory::lemma_code_window_write_block(m1, addrs.0, ro_img, x);
        crate::memory::lemma_code_window_write_block(m2, addrs.1, data_img, x);
        crate::memory::lemma_code_window_write_block(m3, addrs.2, zeros, x);
        assert(code_img[i] == data[so + i]);
    }

    assert forall|i: int| 0 <= i < bss_size implies s_mem_read8(
        s_load_mem(data, m, base_addr),
        #[trigger] ((addrs.2 + i) as u32),
    ) == 0 by {
        let x = (addrs.2 + i) as u32;
        crate::memory::lemma_code_window_write_block(m, base_addr, code_img, x);
        crate::memory::lemma_code_window_write_block(m1, addrs.0, ro_img, x);
        crate::memory::lemma_code_window_write_block(m2, addrs.1, data_img, x);
        crate::memory::lemma_code_window_write_block(m3, addrs.2, zeros, x);
    }
}

/// Load an executable image at `base_addr`: place the segments, clear BSS,
/// apply relocations, and return the entry point (the base).  A malformed or
/// truncated image is rejected without touching memory.
pub fn load(data: &[u8], mem: &mut Memory, base_addr: u32) -> (r: Option<u32>)
    requires
        old(mem)@.wf(),
        data@.len() < 0xFFFF_0000,
    ensures
        r is Some <==> (data@.len() >= HEADER_SIZE && s_check_magic(data@) && s_load_fits(data@)),
        r is Some ==> r->Some_0 == base_addr && final(mem)@ == s_load_mem(
            data@,
            old(mem)@,
            base_addr,
        ),
        r is None ==> final(mem)@ == old(mem)@,
        final(mem)@.wf(),
{
    let header = match parse_header(data) {
        Some(h) => h,
        None => {
            return None;
        },
    };
    let hdr_size = header.header_size as usize;
    let reloc_hdr_size = header.reloc_header_size as usize;
    let reloc_headers_offset = hdr_size;
    let segments_offset = reloc_headers_offset + reloc_hdr_size * 3;

    let code_size = header.code_seg_size;
    let rodata_size = header.rodata_seg_size;
    let bss_size = header.bss_size;
    let data_disk_size = if header.data_seg_size >= bss_size {
        header.data_seg_size - bss_size
    } else {
        0
    };

    let needed: u64 = (segments_offset as u64) + (code_size as u64) + (rodata_size as u64)
        + (data_disk_size as u64);
    if (data.len() as u64) < needed {
        return None;
    }

    let code_pages = page_align(code_size);
    let rodata_pages = page_align(rodata_size);
    let rodata_addr = base_addr.wrapping_add(code_pages);
    let data_addr = rodata_addr.wrapping_add(rodata_pages);
    let bss_addr = data_addr.wrapping_add(data_disk_size);

    let ghost m0 = mem@;

    copy_segment(mem, base_addr, data, segments_offset, code_size);
    copy_segment(mem, rodata_addr, data, segments_offset + (code_size as usize), rodata_size);
    copy_segment(
        mem,
        data_addr,
        data,
        segments_offset + (code_size as usize) + (rodata_size as usize),
        data_disk_size,
    );
    fill_zero(mem, bss_addr, bss_size);

    let reloc_data_offset = segments_offset + (code_size as usize) + (rodata_size as usize) + (
    data_disk_size as usize);

    let ghost m4 = mem@;
    let mut reloc_pos = reloc_data_offset;
    let mut seg: usize = 0;
    while seg < 3
        invariant
            seg <= 3,
            mem@.wf(),
            data@.len() < 0xFFFF_0000,
            reloc_pos <= data@.len(),
            reloc_headers_offset == s_rd16(data@, 4) as int,
            hdr_size == s_rd16(data@, 4) as int,
            reloc_hdr_size == s_rd16(data@, 6) as int,
            rodata_addr == s_seg_addrs(data@, base_addr).0,
            data_addr == s_seg_addrs(data@, base_addr).1,
            s_reloc_segs(
                m4,
                data@,
                reloc_data_offset as int,
                0,
                hdr_size as int,
                reloc_hdr_size as int,
                base_addr,
                base_addr,
                rodata_addr,
                data_addr,
            ) == s_reloc_segs(
                mem@,
                data@,
                reloc_pos as int,
                seg as int,
                hdr_size as int,
                reloc_hdr_size as int,
                base_addr,
                base_addr,
                rodata_addr,
                data_addr,
            ),
        decreases 3 - seg,
    {
        if reloc_hdr_size < 8 {
            seg = seg + 1;
            continue ;
        }
        let rh_off = reloc_headers_offset + seg * reloc_hdr_size;
        let abs_count = read_u32(data, rh_off);
        let rel_count = read_u32(data, rh_off + 4);
        let seg_base = if seg == 0 {
            base_addr
        } else if seg == 1 {
            rodata_addr
        } else {
            data_addr
        };

        let r1 = reloc_run(mem, data, seg_base, reloc_pos, abs_count, true, base_addr, base_addr,
            rodata_addr, data_addr);
        reloc_pos = r1;
        let r2 = reloc_run(mem, data, seg_base, reloc_pos, rel_count, false, base_addr, base_addr,
            rodata_addr, data_addr);
        reloc_pos = r2;
        seg = seg + 1;
    }

    proof {
        assert(mem@ =~= s_load_mem(data@, m0, base_addr));
    }
    Some(base_addr)
}

/// Copy one segment image from the file into memory, byte by byte.
fn copy_segment(mem: &mut Memory, addr: u32, data: &[u8], offset: usize, size: u32)
    requires
        old(mem)@.wf(),
        data@.len() < 0xFFFF_0000,
        offset + size <= data@.len(),
    ensures
        final(mem)@ == s_mem_write_block(
            old(mem)@,
            addr,
            data@.subrange(offset as int, offset + size),
        ),
        final(mem)@.wf(),
{
    let mut i: u32 = 0;
    while i < size
        invariant
            i <= size,
            mem@.wf(),
            data@.len() < 0xFFFF_0000,
            offset + size <= data@.len(),
            mem@ == s_mem_write_block(
                old(mem)@,
                addr,
                data@.subrange(offset as int, offset + i),
            ),
        decreases size - i,
    {
        let b = data[offset + (i as usize)];
        mem.write8(addr.wrapping_add(i), b);
        proof {
            lemma_write_block_push(
                old(mem)@,
                addr,
                data@.subrange(offset as int, offset + i),
                data@[offset + i],
            );
            assert(data@.subrange(offset as int, offset + i).push(data@[offset + i])
                =~= data@.subrange(offset as int, offset + i + 1));
        }
        i = i + 1;
    }
    proof {
        assert(data@.subrange(offset as int, offset + size) =~= data@.subrange(
            offset as int,
            offset + size as int,
        ));
    }
}

/// Zero-fill a run of bytes.
fn fill_zero(mem: &mut Memory, addr: u32, size: u32)
    requires
        old(mem)@.wf(),
    ensures
        final(mem)@ == s_mem_write_block(old(mem)@, addr, Seq::new(size as nat, |i: int| 0u8)),
        final(mem)@.wf(),
{
    let mut i: u32 = 0;
    while i < size
        invariant
            i <= size,
            mem@.wf(),
            mem@ == s_mem_write_block(old(mem)@, addr, Seq::new(i as nat, |j: int| 0u8)),
        decreases size - i,
    {
        mem.write8(addr.wrapping_add(i), 0);
        proof {
            lemma_write_block_push(old(mem)@, addr, Seq::new(i as nat, |j: int| 0u8), 0u8);
            assert(Seq::new(i as nat, |j: int| 0u8).push(0u8) =~= Seq::new(
                (i + 1) as nat,
                |j: int| 0u8,
            ));
        }
        i = i + 1;
    }
}

/// Apply one run of relocation entries, returning the new file position.
fn reloc_run(
    mem: &mut Memory,
    data: &[u8],
    pos0: u32,
    reloc_pos: usize,
    count: u32,
    is_abs: bool,
    base_addr: u32,
    seg0: u32,
    seg1: u32,
    seg2: u32,
) -> (r: usize)
    requires
        old(mem)@.wf(),
        data@.len() < 0xFFFF_0000,
        reloc_pos <= data@.len(),
    ensures
        final(mem)@ == s_reloc_entries(
            old(mem)@,
            data@,
            pos0,
            reloc_pos as int,
            count,
            is_abs,
            base_addr,
            seg0,
            seg1,
            seg2,
        ).0,
        r == s_reloc_entries(
            old(mem)@,
            data@,
            pos0,
            reloc_pos as int,
            count,
            is_abs,
            base_addr,
            seg0,
            seg1,
            seg2,
        ).1,
        final(mem)@.wf(),
        r <= data@.len(),
    decreases count,
{
    if count == 0 {
        return reloc_pos;
    }
    if reloc_pos + 4 > data.len() {
        return reloc_pos;
    }
    let entry = read_u32(data, reloc_pos);
    let skip = entry & 0xFFFF;
    let patch = (entry >> 16) & 0xFFFF;
    proof {
        crate::bits::lemma_and_mask_le(entry, 0xFFFF);
        crate::bits::lemma_and_mask_le(entry >> 16u32, 0xFFFF);
    }
    let pos1 = pos0.wrapping_add(skip * 4);

    let mut pos = pos1;
    let mut j: u32 = 0;
    while j < patch
        invariant
            j <= patch,
            mem@.wf(),
            (if is_abs {
                s_patch_abs(old(mem)@, pos1, patch, base_addr)
            } else {
                s_patch_rel(old(mem)@, pos1, patch, base_addr, seg0, seg1, seg2)
            }) == (if is_abs {
                s_patch_abs(mem@, pos, (patch - j) as u32, base_addr)
            } else {
                s_patch_rel(mem@, pos, (patch - j) as u32, base_addr, seg0, seg1, seg2)
            }),
        decreases patch - j,
    {
        let val = mem.read32(pos);
        if is_abs {
            mem.write32(pos, val.wrapping_add(base_addr));
        } else {
            let target_seg = val & 0xF;
            let offset = val >> 4;
            let newval = if target_seg == 0 {
                seg0.wrapping_add(offset)
            } else if target_seg == 1 {
                seg1.wrapping_add(offset)
            } else if target_seg == 2 {
                seg2.wrapping_add(offset)
            } else {
                val.wrapping_add(base_addr)
            };
            mem.write32(pos, newval);
        }
        pos = pos.wrapping_add(4);
        j = j + 1;
    }

    reloc_run(mem, data, pos, reloc_pos + 4, count - 1, is_abs, base_addr, seg0, seg1, seg2)
}

} // verus!
