use citrine::cpu::arm;
use citrine::cpu::thumb;
use citrine::cpu::{Cpu, CPSR_C, CPSR_T, CPSR_Z, MODE_IRQ, MODE_SVC};
use citrine::memory::Memory;

fn run_instr(cpu: &mut Cpu, mem: &mut Memory, instr: u32) {
    cpu.set_pc(cpu.pc().wrapping_add(8));
    arm::execute(cpu, mem, instr);
}

fn run_thumb(cpu: &mut Cpu, mem: &mut Memory, instr: u16) {
    cpu.cpsr |= CPSR_T;
    cpu.set_pc(cpu.pc().wrapping_add(4));
    thumb::execute(cpu, mem, instr);
}

#[test]
fn initial_state() {
    let cpu = Cpu::new();
    assert_eq!(cpu.mode(), MODE_SVC);
    assert_eq!(cpu.pc(), 0x0010_0000);
    assert!(!cpu.in_thumb_mode());
}

#[test]
fn mode_switch_preserves_banked() {
    let mut cpu = Cpu::new();
    cpu.regs[13] = 0x1000;
    cpu.regs[14] = 0x2000;
    cpu.switch_mode(MODE_IRQ);
    assert_eq!(cpu.mode(), MODE_IRQ);
    cpu.regs[13] = 0x3000;
    cpu.switch_mode(MODE_SVC);
    assert_eq!(cpu.regs[13], 0x1000);
}

#[test]
fn condition_codes() {
    let mut cpu = Cpu::new();
    cpu.cpsr |= CPSR_Z;
    assert!(cpu.check_condition(0x0));
    assert!(!cpu.check_condition(0x1));
}

#[test]
fn set_nz_flags() {
    let mut cpu = Cpu::new();
    cpu.set_nz(0);
    assert!(cpu.flag_z());
    assert!(!cpu.flag_n());
    cpu.set_nz(0x8000_0000);
    assert!(!cpu.flag_z());
    assert!(cpu.flag_n());
}

#[test]
fn mov_imm() {
    let mut cpu = Cpu::new();
    let mut mem = Memory::new();
    run_instr(&mut cpu, &mut mem, 0xE3A0_002A);
    assert_eq!(cpu.regs[0], 42);
}

#[test]
fn add_regs() {
    let mut cpu = Cpu::new();
    let mut mem = Memory::new();
    cpu.regs[1] = 10;
    cpu.regs[2] = 20;
    run_instr(&mut cpu, &mut mem, 0xE081_0002);
    assert_eq!(cpu.regs[0], 30);
}

#[test]
fn sub_sets_flags() {
    let mut cpu = Cpu::new();
    let mut mem = Memory::new();
    cpu.regs[1] = 5;
    run_instr(&mut cpu, &mut mem, 0xE251_0005);
    assert_eq!(cpu.regs[0], 0);
    assert!(cpu.flag_z());
}

#[test]
fn ldr_str_roundtrip() {
    let mut cpu = Cpu::new();
    let mut mem = Memory::new();
    cpu.regs[1] = 0x0800_0000;
    cpu.regs[0] = 0xDEAD_BEEF;
    run_instr(&mut cpu, &mut mem, 0xE581_0000);
    cpu.regs[0] = 0;
    run_instr(&mut cpu, &mut mem, 0xE591_0000);
    assert_eq!(cpu.regs[0], 0xDEAD_BEEF);
}

#[test]
fn branch_forward() {
    let mut cpu = Cpu::new();
    let mut mem = Memory::new();
    cpu.set_pc(0x0010_0000);
    run_instr(&mut cpu, &mut mem, 0xEA00_0004);
    assert_eq!(cpu.pc(), 0x0010_0000 + 8 + 16);
}

#[test]
fn cmp_sets_carry() {
    let mut cpu = Cpu::new();
    let mut mem = Memory::new();
    cpu.regs[0] = 10;
    run_instr(&mut cpu, &mut mem, 0xE350_0005);
    assert!(cpu.flag_c());
    assert!(!cpu.flag_z());
}

#[test]
fn ldm_stm() {
    let mut cpu = Cpu::new();
    let mut mem = Memory::new();
    cpu.regs[13] = 0x0800_1000;
    cpu.regs[0] = 0xAA;
    cpu.regs[1] = 0xBB;
    run_instr(&mut cpu, &mut mem, 0xE92D_0003);
    assert_eq!(cpu.regs[13], 0x0800_1000 - 8);
    cpu.regs[0] = 0;
    cpu.regs[1] = 0;
    run_instr(&mut cpu, &mut mem, 0xE8BD_0003);
    assert_eq!(cpu.regs[0], 0xAA);
    assert_eq!(cpu.regs[1], 0xBB);
}

#[test]
fn clz() {
    let mut cpu = Cpu::new();
    let mut mem = Memory::new();
    cpu.regs[1] = 0x0000_0100;
    run_instr(&mut cpu, &mut mem, 0xE16F_0F11);
    assert_eq!(cpu.regs[0], 23);
}

#[test]
fn mul() {
    let mut cpu = Cpu::new();
    let mut mem = Memory::new();
    cpu.regs[1] = 7;
    cpu.regs[2] = 6;
    run_instr(&mut cpu, &mut mem, 0xE000_0291);
    assert_eq!(cpu.regs[0], 42);
}

#[test]
fn condition_ne_skips() {
    let mut cpu = Cpu::new();
    let mut mem = Memory::new();
    cpu.cpsr |= CPSR_Z;
    cpu.regs[0] = 99;
    run_instr(&mut cpu, &mut mem, 0x13A0_0000);
    assert_eq!(cpu.regs[0], 99);
}

#[test]
fn condition_ne_costs_one_cycle() {
    let mut cpu = Cpu::new();
    let mut mem = Memory::new();
    cpu.cpsr |= CPSR_Z;
    let before = cpu.cycles;
    run_instr(&mut cpu, &mut mem, 0x13A0_0000);
    assert_eq!(cpu.cycles, before + 1);
}

#[test]
fn barrel_lsr_zero_is_lsr_32() {
    // MOVS R0, R1, LSR #0 treats the amount as 32: zero result, carry from
    // bit 31 of the operand.
    let mut cpu = Cpu::new();
    let mut mem = Memory::new();
    cpu.regs[1] = 0x8000_0000;
    cpu.cpsr &= !CPSR_C;
    run_instr(&mut cpu, &mut mem, 0xE1B0_0021);
    assert_eq!(cpu.regs[0], 0);
    assert!(cpu.flag_c());
    assert!(cpu.flag_z());
}

#[test]
fn barrel_ror_zero_is_rrx() {
    // MOVS R0, R1, ROR #0 is a rotate through carry: operand 1 with carry-in
    // 0 gives 0 with carry-out 1.
    let mut cpu = Cpu::new();
    let mut mem = Memory::new();
    cpu.regs[1] = 1;
    cpu.cpsr &= !CPSR_C;
    run_instr(&mut cpu, &mut mem, 0xE1B0_0061);
    assert_eq!(cpu.regs[0], 0);
    assert!(cpu.flag_c());
}

#[test]
fn ldm_r15_bit0_switches_to_thumb() {
    let mut cpu = Cpu::new();
    let mut mem = Memory::new();
    cpu.regs[0] = 0x0800_0000;
    mem.write32(0x0800_0000, 0x0010_0101);
    // LDMIA R0!, {R15}
    run_instr(&mut cpu, &mut mem, 0xE8B0_8000);
    assert!(cpu.in_thumb_mode());
    assert_eq!(cpu.pc(), 0x0010_0100);
}

#[test]
fn ldm_r15_bit0_clear_stays_arm() {
    let mut cpu = Cpu::new();
    let mut mem = Memory::new();
    cpu.regs[0] = 0x0800_0000;
    mem.write32(0x0800_0000, 0x0010_0100);
    run_instr(&mut cpu, &mut mem, 0xE8B0_8000);
    assert!(!cpu.in_thumb_mode());
    assert_eq!(cpu.pc(), 0x0010_0100);
}

#[test]
fn cmp_flags_exact() {
    // CMP R0, #5 with R0 = 10: C set (no borrow), Z, N and V all clear.
    let mut cpu = Cpu::new();
    let mut mem = Memory::new();
    cpu.regs[0] = 10;
    run_instr(&mut cpu, &mut mem, 0xE350_0005);
    assert!(cpu.flag_c());
    assert!(!cpu.flag_z());
    assert!(!cpu.flag_n());
    assert!(!cpu.flag_v());
}

#[test]
fn switch_mode_round_trip_restores_sp_lr() {
    let mut cpu = Cpu::new();
    cpu.regs[13] = 0xCAFE_0000;
    cpu.regs[14] = 0xF00D_0000;
    let old_mode = cpu.mode();
    cpu.switch_mode(0x11);
    cpu.regs[13] = 1;
    cpu.regs[14] = 2;
    cpu.switch_mode(old_mode);
    assert_eq!(cpu.regs[13], 0xCAFE_0000);
    assert_eq!(cpu.regs[14], 0xF00D_0000);
}

#[test]
fn mov_imm_thumb() {
    let mut cpu = Cpu::new();
    let mut mem = Memory::new();
    run_thumb(&mut cpu, &mut mem, 0x2364);
    assert_eq!(cpu.regs[3], 100);
}

#[test]
fn add_regs_thumb() {
    let mut cpu = Cpu::new();
    let mut mem = Memory::new();
    cpu.regs[1] = 10;
    cpu.regs[2] = 20;
    run_thumb(&mut cpu, &mut mem, 0x1888);
    assert_eq!(cpu.regs[0], 30);
}

#[test]
fn push_pop_thumb() {
    let mut cpu = Cpu::new();
    let mut mem = Memory::new();
    cpu.regs[13] = 0x0800_1000;
    cpu.regs[0] = 0xAA;
    cpu.regs[1] = 0xBB;
    run_thumb(&mut cpu, &mut mem, 0xB403);
    assert_eq!(cpu.regs[13], 0x0800_1000 - 8);
    cpu.regs[0] = 0;
    cpu.regs[1] = 0;
    run_thumb(&mut cpu, &mut mem, 0xBC03);
    assert_eq!(cpu.regs[0], 0xAA);
    assert_eq!(cpu.regs[1], 0xBB);
    assert_eq!(cpu.regs[13], 0x0800_1000);
}

#[test]
fn lsl_imm_thumb() {
    let mut cpu = Cpu::new();
    let mut mem = Memory::new();
    cpu.regs[1] = 1;
    run_thumb(&mut cpu, &mut mem, 0x0108);
    assert_eq!(cpu.regs[0], 16);
}

#[test]
fn cmp_imm_thumb() {
    let mut cpu = Cpu::new();
    let mut mem = Memory::new();
    cpu.regs[0] = 42;
    run_thumb(&mut cpu, &mut mem, 0x282A);
    assert!(cpu.flag_z());
    assert!(cpu.flag_c());
}
