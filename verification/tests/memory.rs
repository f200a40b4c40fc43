use citrine::memory::regions::MemoryRegions;
use citrine::memory::{Memory, VADDR_CODE_BASE, VADDR_HEAP_BASE, VADDR_TLS_BASE, VADDR_VRAM_BASE};

#[test]
fn read_write_8() {
    let mut mem = Memory::new();
    mem.write8(VADDR_HEAP_BASE, 0xAB);
    assert_eq!(mem.read8(VADDR_HEAP_BASE), 0xAB);
}

#[test]
fn read_write_32() {
    let mut mem = Memory::new();
    mem.write32(VADDR_HEAP_BASE, 0xDEAD_BEEF);
    assert_eq!(mem.read32(VADDR_HEAP_BASE), 0xDEAD_BEEF);
}

#[test]
fn write_block_read_back() {
    let mut mem = Memory::new();
    let data = [1, 2, 3, 4, 5];
    mem.write_block(VADDR_HEAP_BASE, &data);
    assert_eq!(mem.read_block(VADDR_HEAP_BASE, 5), data);
}

#[test]
fn heap_allocation() {
    let mut mem = Memory::new();
    let a1 = mem.alloc_heap(0x100);
    let a2 = mem.alloc_heap(0x200);
    assert_eq!(a1, VADDR_HEAP_BASE);
    assert_eq!(a2, VADDR_HEAP_BASE + 0x1000);
}

#[test]
fn code_region_maps_to_fcram() {
    let mut r = MemoryRegions::new();
    r.write8(VADDR_CODE_BASE + 10, 0x42);
    assert_eq!(r.fcram[10], 0x42);
}

#[test]
fn vram_access() {
    let mut r = MemoryRegions::new();
    r.write8(VADDR_VRAM_BASE, 0xFF);
    assert_eq!(r.vram[0], 0xFF);
    assert_eq!(r.read8(VADDR_VRAM_BASE), 0xFF);
}

#[test]
fn config_mem_initialized() {
    let r = MemoryRegions::new();
    let size = u32::from_le_bytes([
        r.config_mem[0x20],
        r.config_mem[0x21],
        r.config_mem[0x22],
        r.config_mem[0x23],
    ]);
    assert_eq!(size, 128 * 1024 * 1024);
}

#[test]
fn tls_read_write() {
    let mut r = MemoryRegions::new();
    r.write8(VADDR_TLS_BASE + 0x80, 0xAA);
    assert_eq!(r.read8(VADDR_TLS_BASE + 0x80), 0xAA);
}

#[test]
fn unmapped_returns_zero() {
    let r = MemoryRegions::new();
    assert_eq!(r.read8(0xFFFF_FFFF), 0);
}

#[test]
fn misaligned_word_load_rotates() {
    // A word LDR at an address with low bits set returns the aligned word
    // rotated right by eight bits per offset byte.
    let mut cpu = citrine::cpu::Cpu::new();
    let mut mem = Memory::new();
    mem.write32(0x0800_0000, 0x1122_3344);
    cpu.regs[1] = 0x0800_0001;
    cpu.set_pc(cpu.pc().wrapping_add(8));
    citrine::cpu::arm::execute(&mut cpu, &mut mem, 0xE591_0000);
    assert_eq!(cpu.regs[0], 0x4411_2233);
}
