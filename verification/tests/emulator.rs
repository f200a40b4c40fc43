use citrine::emulator::Emulator;
use citrine::hw::timer::{SystemTimer, CPU_FREQ_HZ};
use citrine::hw::Hardware;

fn make_3dsx(code: &[u8]) -> Vec<u8> {
    let mut out = Vec::new();
    out.extend_from_slice(&[0x33, 0x44, 0x53, 0x58]);
    out.extend_from_slice(&32u16.to_le_bytes());
    out.extend_from_slice(&8u16.to_le_bytes());
    out.extend_from_slice(&0u32.to_le_bytes());
    out.extend_from_slice(&0u32.to_le_bytes());
    out.extend_from_slice(&(code.len() as u32).to_le_bytes());
    out.extend_from_slice(&0u32.to_le_bytes());
    out.extend_from_slice(&0u32.to_le_bytes());
    out.extend_from_slice(&0u32.to_le_bytes());
    for _ in 0..3 {
        out.extend_from_slice(&0u32.to_le_bytes());
        out.extend_from_slice(&0u32.to_le_bytes());
    }
    out.extend_from_slice(code);
    out
}

#[test]
fn emulator_creation() {
    let emu = Emulator::new();
    assert!(!emu.running);
    assert_eq!(emu.cpu.pc(), 0x0010_0000);
}

#[test]
fn emulator_reset() {
    let mut emu = Emulator::new();
    emu.running = true;
    emu.cpu.regs[0] = 0xDEAD;
    emu.reset();
    assert!(!emu.running);
    assert_eq!(emu.cpu.regs[0], 0);
}

#[test]
fn framebuffer_sizes() {
    let emu = Emulator::new();
    assert_eq!(emu.get_fb_top().len(), 400 * 240 * 4);
    assert_eq!(emu.get_fb_bottom().len(), 320 * 240 * 4);
}

#[test]
fn set_buttons() {
    let mut emu = Emulator::new();
    emu.set_buttons(0xFF);
    assert_eq!(emu.services.buttons, 0xFF);
}

#[test]
fn debug_info_format() {
    let emu = Emulator::new();
    let info = emu.debug_info();
    assert!(info.contains("PC="));
    assert!(info.contains("SVC"));
}

#[test]
fn hardware_tick() {
    let mut hw = Hardware::new();
    hw.tick(100);
    assert_eq!(hw.timer.cycles(), 100);
    hw.tick(50);
    assert_eq!(hw.timer.cycles(), 150);
}

#[test]
fn timer_accumulate() {
    let mut t = SystemTimer::new();
    assert_eq!(t.cycles(), 0);
    t.add_cycles(1000);
    assert_eq!(t.cycles(), 1000);
    t.add_cycles(500);
    assert_eq!(t.cycles(), 1500);
}

#[test]
fn timer_microseconds() {
    let mut t = SystemTimer::new();
    t.add_cycles(CPU_FREQ_HZ);
    assert_eq!(t.microseconds(), 1_000_000);
}

#[test]
fn timer_reset() {
    let mut t = SystemTimer::new();
    t.add_cycles(12345);
    t.reset();
    assert_eq!(t.cycles(), 0);
}

#[test]
fn mov_immediate_steps_to_next_instruction() {
    // One ARM MOV immediate: R0 becomes 42 and the PC advances one word.
    let mut emu = Emulator::new();
    emu.mem.write32(0x0010_0000, 0xE3A0_002A);
    emu.cpu.set_pc(0x0010_0000);
    emu.step();
    assert_eq!(emu.cpu.regs[0], 42);
    assert_eq!(emu.cpu.pc(), 0x0010_0004);
}

#[test]
fn load_3dsx_starts_the_machine() {
    let mut emu = Emulator::new();
    let image = make_3dsx(&[0xFE, 0xFF, 0xFF, 0xEA]);
    assert!(emu.load_3dsx(&image));
    assert!(emu.running);
    assert_eq!(emu.cpu.pc(), 0x0010_0000);
    assert_eq!(emu.kernel.threads.len(), 1);
}

#[test]
fn load_3dsx_rejects_garbage() {
    let mut emu = Emulator::new();
    assert!(!emu.load_3dsx(&[0u8; 64]));
    assert!(!emu.running);
}

#[test]
fn interpreter_is_deterministic() {
    // Two instances stepped the same number of times from the same program
    // produce bit-identical registers and memory.
    let image = make_3dsx(&[
        0x01, 0x00, 0x80, 0xE2, // ADD R0, R0, #1
        0xFD, 0xFF, 0xFF, 0xEA, // B back to the add
    ]);
    let mut a = Emulator::new();
    let mut b = Emulator::new();
    assert!(a.load_3dsx(&image));
    assert!(b.load_3dsx(&image));
    for _ in 0..1000 {
        a.step();
        b.step();
    }
    assert_eq!(a.cpu.regs, b.cpu.regs);
    assert_eq!(a.cpu.cpsr, b.cpu.cpsr);
    assert_eq!(a.cpu.cycles, b.cpu.cycles);
    for i in 0..64 {
        assert_eq!(
            a.mem.read8(0x0010_0000 + i),
            b.mem.read8(0x0010_0000 + i)
        );
    }
    assert!(a.cpu.regs[0] > 0);
}
