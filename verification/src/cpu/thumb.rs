//! Interpreter for the 16-bit Thumb instruction set.
//!
//! As with the ARM interpreter, every handler is specified by a pure
//! function on snapshots and `s_thumb_execute` composes them under the
//! format dispatch on the instruction's top byte.

use vstd::prelude::*;

verus! {

use crate::bits::lemma_and_mask_le_u16;
use crate::bits::rotr32;
use crate::bits::s_rotr32;
use crate::bits::asr32;
use crate::bits::s_asr32;
use crate::bits::sext8;
use crate::bits::s_sext8;
use crate::bits::sext16;
use crate::bits::s_sext16;
use crate::bits::count_bits16;
use crate::bits::s_bits_set;
use crate::cpu::Cpu;
use crate::cpu::CpuSnap;
use crate::cpu::CPSR_C;
use crate::cpu::CPSR_I;
use crate::cpu::CPSR_T;
use crate::cpu::CPSR_V;
use crate::cpu::MODE_SVC;
use crate::cpu::s_add_cycles;
use crate::cpu::s_check_condition;
use crate::cpu::s_flag_c;
use crate::cpu::s_set_flag;
use crate::cpu::s_set_nz;
use crate::cpu::s_set_spsr;
use crate::cpu::s_switch_mode;
use crate::cpu::s_with_reg;
use crate::memory::MemSnap;
use crate::memory::Memory;
use crate::memory::s_mem_read8;
use crate::memory::s_mem_read16;
use crate::memory::s_mem_read32;
use crate::memory::s_mem_write8;
use crate::memory::s_mem_write16;
use crate::memory::s_mem_write32;

/// Subtraction flags: C is not-borrow, V the signed-overflow formula.
pub open spec fn s_sub_flags(c: CpuSnap, a: u32, b: u32, result: u32) -> CpuSnap {
    let c1 = s_set_flag(c, CPSR_C, a >= b);
    s_set_flag(c1, CPSR_V, ((a ^ b) & (a ^ result)) >> 31u32 != 0)
}

/// Addition flags: C from unsigned wraparound, V the signed-overflow
/// formula.
pub open spec fn s_add_flags(c: CpuSnap, a: u32, b: u32, result: u32) -> CpuSnap {
    let c1 = s_set_flag(c, CPSR_C, result < a);
    s_set_flag(c1, CPSR_V, (!(a ^ b) & (a ^ result)) >> 31u32 != 0)
}

/// Move shifted register (LSL/LSR/ASR with an immediate amount; amount 0 is
/// pass-through for LSL, a 32-bit shift for the others).
pub open spec fn s_exec_shift_imm(c: CpuSnap, instr: u16) -> CpuSnap {
    let op = (instr >> 11u16) & 0x3;
    let offset = ((instr >> 6u16) & 0x1F) as u32;
    let rs = ((instr >> 3u16) & 0x7) as int;
    let rd = (instr & 0x7) as int;
    let val = c.regs[rs];
    let rc: (u32, bool) = if op == 0 {
        if offset == 0 {
            (val, s_flag_c(c))
        } else {
            (val << offset, (val >> ((32 - offset) as u32)) & 1 != 0)
        }
    } else if op == 1 {
        if offset == 0 {
            (0u32, val >> 31u32 != 0)
        } else {
            (val >> offset, (val >> ((offset - 1) as u32)) & 1 != 0)
        }
    } else if op == 2 {
        if offset == 0 {
            let bit = val >> 31u32 != 0;
            (if bit { 0xFFFF_FFFFu32 } else { 0u32 }, bit)
        } else {
            (s_asr32(val, offset), (val >> ((offset - 1) as u32)) & 1 != 0)
        }
    } else {
        (val, s_flag_c(c))
    };
    let c1 = s_set_nz(s_with_reg(c, rd, rc.0), rc.0);
    s_add_cycles(s_set_flag(c1, CPSR_C, rc.1), 1)
}

/// Three-register / small-immediate add and subtract, with full flags.
pub open spec fn s_exec_add_sub_reg(c: CpuSnap, instr: u16) -> CpuSnap {
    let sub = (instr >> 9u16) & 1 != 0;
    let rn = ((instr >> 6u16) & 0x7) as int;
    let rs = ((instr >> 3u16) & 0x7) as int;
    let rd = (instr & 0x7) as int;
    let a = c.regs[rs];
    let b = c.regs[rn];
    let result = if sub {
        a.wrapping_sub(b)
    } else {
        a.wrapping_add(b)
    };
    let c1 = s_set_nz(s_with_reg(c, rd, result), result);
    let c2 = if sub {
        s_sub_flags(c1, a, b, result)
    } else {
        s_add_flags(c1, a, b, result)
    };
    s_add_cycles(c2, 1)
}

pub open spec fn s_exec_add_sub_imm(c: CpuSnap, instr: u16) -> CpuSnap {
    let sub = (instr >> 9u16) & 1 != 0;
    let imm = ((instr >> 6u16) & 0x7) as u32;
    let rs = ((instr >> 3u16) & 0x7) as int;
    let rd = (instr & 0x7) as int;
    let a = c.regs[rs];
    let result = if sub {
        a.wrapping_sub(imm)
    } else {
        a.wrapping_add(imm)
    };
    let c1 = s_set_nz(s_with_reg(c, rd, result), result);
    let c2 = if sub {
        s_sub_flags(c1, a, imm, result)
    } else {
        s_add_flags(c1, a, imm, result)
    };
    s_add_cycles(c2, 1)
}

/// 8-bit immediate move.
pub open spec fn s_exec_mov_imm(c: CpuSnap, instr: u16) -> CpuSnap {
    let rd = ((instr >> 8u16) & 0x7) as int;
    let imm = (instr & 0xFF) as u32;
    s_add_cycles(s_set_nz(s_with_reg(c, rd, imm), imm), 1)
}

/// 8-bit immediate compare.
pub open spec fn s_exec_cmp_imm(c: CpuSnap, instr: u16) -> CpuSnap {
    let rd = ((instr >> 8u16) & 0x7) as int;
    let imm = (instr & 0xFF) as u32;
    let a = c.regs[rd];
    let result = a.wrapping_sub(imm);
    s_add_cycles(s_sub_flags(s_set_nz(c, result), a, imm, result), 1)
}

/// 8-bit immediate add.
pub open spec fn s_exec_add_imm(c: CpuSnap, instr: u16) -> CpuSnap {
    let rd = ((instr >> 8u16) & 0x7) as int;
    let imm = (instr & 0xFF) as u32;
    let a = c.regs[rd];
    let result = a.wrapping_add(imm);
    let c1 = s_set_nz(s_with_reg(c, rd, result), result);
    s_add_cycles(s_add_flags(c1, a, imm, result), 1)
}

/// 8-bit immediate subtract.
pub open spec fn s_exec_sub_imm(c: CpuSnap, instr: u16) -> CpuSnap {
    let rd = ((instr >> 8u16) & 0x7) as int;
    let imm = (instr & 0xFF) as u32;
    let a = c.regs[rd];
    let result = a.wrapping_sub(imm);
    let c1 = s_set_nz(s_with_reg(c, rd, result), result);
    s_add_cycles(s_sub_flags(c1, a, imm, result), 1)
}

/// The register-to-register ALU formats, including the shift-by-register
/// forms with their saturating behaviour at amounts of 32 and beyond.
pub open spec fn s_exec_alu(c: CpuSnap, instr: u16) -> CpuSnap {
    let op = (instr >> 6u16) & 0xF;
    let rs = ((instr >> 3u16) & 0x7) as int;
    let rd = (instr & 0x7) as int;
    let a = c.regs[rd];
    let b = c.regs[rs];
    if op == 0x8 {
        s_add_cycles(s_set_nz(c, a & b), 1)
    } else if op == 0xA {
        let r = a.wrapping_sub(b);
        s_add_cycles(s_sub_flags(s_set_nz(c, r), a, b, r), 1)
    } else if op == 0xB {
        let r = a.wrapping_add(b);
        s_add_cycles(s_add_flags(s_set_nz(c, r), a, b, r), 1)
    } else {
        let cr: (CpuSnap, u32) = if op == 0x0 {
            (c, a & b)
        } else if op == 0x1 {
            (c, a ^ b)
        } else if op == 0x2 {
            let shift = b & 0xFF;
            if shift == 0 {
                (c, a)
            } else if shift < 32 {
                (s_set_flag(c, CPSR_C, (a >> ((32 - shift) as u32)) & 1 != 0), a << shift)
            } else if shift == 32 {
                (s_set_flag(c, CPSR_C, a & 1 != 0), 0u32)
            } else {
                (s_set_flag(c, CPSR_C, false), 0u32)
            }
        } else if op == 0x3 {
            let shift = b & 0xFF;
            if shift == 0 {
                (c, a)
            } else if shift < 32 {
                (s_set_flag(c, CPSR_C, (a >> ((shift - 1) as u32)) & 1 != 0), a >> shift)
            } else if shift == 32 {
                (s_set_flag(c, CPSR_C, a >> 31u32 != 0), 0u32)
            } else {
                (s_set_flag(c, CPSR_C, false), 0u32)
            }
        } else if op == 0x4 {
            let shift = b & 0xFF;
            if shift == 0 {
                (c, a)
            } else if shift < 32 {
                (s_set_flag(c, CPSR_C, (a >> ((shift - 1) as u32)) & 1 != 0), s_asr32(a, shift))
            } else {
                let bit = a >> 31u32 != 0;
                (s_set_flag(c, CPSR_C, bit), if bit { 0xFFFF_FFFFu32 } else { 0u32 })
            }
        } else if op == 0x5 {
            let cin: u32 = if s_flag_c(c) { 1 } else { 0 };
            let r = a.wrapping_add(b).wrapping_add(cin);
            let carry = (r < a) || (cin == 1 && r == a);
            let c1 = s_set_flag(c, CPSR_C, carry);
            (s_set_flag(c1, CPSR_V, (!(a ^ b) & (a ^ r)) >> 31u32 != 0), r)
        } else if op == 0x6 {
            let cin: u32 = if s_flag_c(c) { 1 } else { 0 };
            let r = a.wrapping_sub(b).wrapping_sub((1 - cin) as u32);
            (s_set_flag(c, CPSR_C, a >= b.wrapping_add((1 - cin) as u32)), r)
        } else if op == 0x7 {
            let shift = b & 0xFF;
            if shift == 0 {
                (c, a)
            } else {
                let eff = shift & 31;
                let r = if eff == 0 {
                    a
                } else {
                    s_rotr32(a, eff)
                };
                (s_set_flag(c, CPSR_C, r >> 31u32 != 0), r)
            }
        } else if op == 0x9 {
            (c, (0u32).wrapping_sub(b))
        } else if op == 0xC {
            (c, a | b)
        } else if op == 0xD {
            (c, a.wrapping_mul(b))
        } else if op == 0xE {
            (c, a & !b)
        } else {
            (c, !b)
        };
        let c2 = s_set_nz(s_with_reg(cr.0, rd, cr.1), cr.1);
        s_add_cycles(c2, 1)
    }
}

/// High-register operations and BX/BLX: adds, compares and moves that can
/// reach R8..R15, and the interworking branch.
pub open spec fn s_exec_hi_reg(c: CpuSnap, instr: u16) -> CpuSnap {
    let op = (instr >> 8u16) & 0x3;
    let h1 = (instr >> 7u16) & 1 != 0;
    let h2 = (instr >> 6u16) & 1 != 0;
    let rs = (((instr >> 3u16) & 0x7) + if h2 { 8u16 } else { 0u16 }) as int;
    let rd = ((instr & 0x7) + if h1 { 8u16 } else { 0u16 }) as int;
    let c1 = if op == 0 {
        let v = c.regs[rd].wrapping_add(c.regs[rs]);
        let ca = s_with_reg(c, rd, v);
        if rd == 15 {
            s_with_reg(ca, 15, ca.regs[15] & !1u32)
        } else {
            ca
        }
    } else if op == 1 {
        let a = c.regs[rd];
        let b = c.regs[rs];
        let r = a.wrapping_sub(b);
        s_sub_flags(s_set_nz(c, r), a, b, r)
    } else if op == 2 {
        let ca = s_with_reg(c, rd, c.regs[rs]);
        if rd == 15 {
            s_with_reg(ca, 15, ca.regs[15] & !1u32)
        } else {
            ca
        }
    } else {
        let addr = c.regs[rs];
        let ca = if h1 {
            s_with_reg(c, 14, (c.regs[15].wrapping_sub(2)) | 1)
        } else {
            c
        };
        if addr & 1 != 0 {
            s_with_reg(s_set_flag(ca, CPSR_T, true), 15, addr & !1u32)
        } else {
            s_with_reg(s_set_flag(ca, CPSR_T, false), 15, addr & !3u32)
        }
    };
    s_add_cycles(c1, 1)
}

/// PC-relative literal load.
pub open spec fn s_exec_ldr_pc(c: CpuSnap, m: MemSnap, instr: u16) -> CpuSnap {
    let rd = ((instr >> 8u16) & 0x7) as int;
    let offset = (((instr & 0xFF) as u32) * 4) as u32;
    let addr = (c.regs[15] & !3u32).wrapping_add(offset);
    s_add_cycles(s_with_reg(c, rd, s_mem_read32(m, addr)), 3)
}

/// Load/store with a register offset (word, halfword, byte, signed forms).
pub open spec fn s_exec_load_store_reg(c: CpuSnap, m: MemSnap, instr: u16) -> (CpuSnap, MemSnap) {
    let op = (instr >> 9u16) & 0x7;
    let ro = ((instr >> 6u16) & 0x7) as int;
    let rb = ((instr >> 3u16) & 0x7) as int;
    let rd = (instr & 0x7) as int;
    let addr = c.regs[rb].wrapping_add(c.regs[ro]);
    let cm: (CpuSnap, MemSnap) = if op == 0 {
        (c, s_mem_write32(m, addr & !3u32, c.regs[rd]))
    } else if op == 1 {
        (c, s_mem_write16(m, addr & !1u32, c.regs[rd] as u16))
    } else if op == 2 {
        (c, s_mem_write8(m, addr, c.regs[rd] as u8))
    } else if op == 3 {
        (s_with_reg(c, rd, s_sext8(s_mem_read8(m, addr) as u32)), m)
    } else if op == 4 {
        (s_with_reg(c, rd, s_mem_read32(m, addr & !3u32)), m)
    } else if op == 5 {
        (s_with_reg(c, rd, s_mem_read16(m, addr & !1u32) as u32), m)
    } else if op == 6 {
        (s_with_reg(c, rd, s_mem_read8(m, addr) as u32), m)
    } else {
        (s_with_reg(c, rd, s_sext16(s_mem_read16(m, addr & !1u32) as u32)), m)
    };
    (s_add_cycles(cm.0, if op >= 3 { 3 } else { 2 }), cm.1)
}

/// Load/store with a scaled immediate offset (word or byte).
pub open spec fn s_exec_load_store_imm(c: CpuSnap, m: MemSnap, instr: u16) -> (CpuSnap, MemSnap) {
    let byte = (instr >> 12u16) & 1 != 0;
    let load = (instr >> 11u16) & 1 != 0;
    let offset = ((instr >> 6u16) & 0x1F) as u32;
    let rb = ((instr >> 3u16) & 0x7) as int;
    let rd = (instr & 0x7) as int;
    let cm: (CpuSnap, MemSnap) = if byte {
        let addr = c.regs[rb].wrapping_add(offset);
        if load {
            (s_with_reg(c, rd, s_mem_read8(m, addr) as u32), m)
        } else {
            (c, s_mem_write8(m, addr, c.regs[rd] as u8))
        }
    } else {
        let addr = c.regs[rb].wrapping_add((offset * 4) as u32);
        if load {
            (s_with_reg(c, rd, s_mem_read32(m, addr & !3u32)), m)
        } else {
            (c, s_mem_write32(m, addr & !3u32, c.regs[rd]))
        }
    };
    (s_add_cycles(cm.0, if load { 3 } else { 2 }), cm.1)
}

/// Load/store halfword with an immediate offset.
pub open spec fn s_exec_load_store_half(c: CpuSnap, m: MemSnap, instr: u16) -> (CpuSnap, MemSnap) {
    let load = (instr >> 11u16) & 1 != 0;
    let offset = ((((instr >> 6u16) & 0x1F) as u32) * 2) as u32;
    let rb = ((instr >> 3u16) & 0x7) as int;
    let rd = (instr & 0x7) as int;
    let addr = c.regs[rb].wrapping_add(offset);
    if load {
        (s_add_cycles(s_with_reg(c, rd, s_mem_read16(m, addr & !1u32) as u32), 3), m)
    } else {
        (s_add_cycles(c, 2), s_mem_write16(m, addr & !1u32, c.regs[rd] as u16))
    }
}

/// SP-relative load/store.
pub open spec fn s_exec_load_store_sp(c: CpuSnap, m: MemSnap, instr: u16) -> (CpuSnap, MemSnap) {
    let load = (instr >> 11u16) & 1 != 0;
    let rd = ((instr >> 8u16) & 0x7) as int;
    let offset = (((instr & 0xFF) as u32) * 4) as u32;
    let addr = c.regs[13].wrapping_add(offset);
    if load {
        (s_add_cycles(s_with_reg(c, rd, s_mem_read32(m, addr & !3u32)), 3), m)
    } else {
        (s_add_cycles(c, 2), s_mem_write32(m, addr & !3u32, c.regs[rd]))
    }
}

/// Form an address from the PC or SP plus an immediate.
pub open spec fn s_exec_load_addr(c: CpuSnap, instr: u16) -> CpuSnap {
    let sp = (instr >> 11u16) & 1 != 0;
    let rd = ((instr >> 8u16) & 0x7) as int;
    let offset = (((instr & 0xFF) as u32) * 4) as u32;
    let v = if sp {
        c.regs[13].wrapping_add(offset)
    } else {
        (c.regs[15] & !3u32).wrapping_add(offset)
    };
    s_add_cycles(s_with_reg(c, rd, v), 1)
}

/// Adjust SP by a signed 9-bit immediate.
pub open spec fn s_exec_add_sp(c: CpuSnap, instr: u16) -> CpuSnap {
    let neg = (instr >> 7u16) & 1 != 0;
    let offset = (((instr & 0x7F) as u32) * 4) as u32;
    let v = if neg {
        c.regs[13].wrapping_sub(offset)
    } else {
        c.regs[13].wrapping_add(offset)
    };
    s_add_cycles(s_with_reg(c, 13, v), 1)
}

/// The store loop of a push / STMIA: registers `i..8` whose bits are set
/// stored to consecutive words; returns the next address.
pub open spec fn s_store_loop8(
    c: CpuSnap,
    m: MemSnap,
    reg_list: u16,
    addr: u32,
    i: nat,
) -> (MemSnap, u32)
    decreases 8 - i,
{
    if i >= 8 {
        (m, addr)
    } else if (reg_list >> (i as u16)) & 1 == 0 {
        s_store_loop8(c, m, reg_list, addr, i + 1)
    } else {
        s_store_loop8(
            c,
            s_mem_write32(m, addr, c.regs[i as int]),
            reg_list,
            addr.wrapping_add(4),
            i + 1,
        )
    }
}

/// The load loop of a pop / LDMIA: registers `i..8` whose bits are set
/// loaded from consecutive words; returns the next address.
pub open spec fn s_load_loop8(
    c: CpuSnap,
    m: MemSnap,
    reg_list: u16,
    addr: u32,
    i: nat,
) -> (CpuSnap, u32)
    decreases 8 - i,
{
    if i >= 8 {
        (c, addr)
    } else if (reg_list >> (i as u16)) & 1 == 0 {
        s_load_loop8(c, m, reg_list, addr, i + 1)
    } else {
        s_load_loop8(
            s_with_reg(c, i as int, s_mem_read32(m, addr)),
            m,
            reg_list,
            addr.wrapping_add(4),
            i + 1,
        )
    }
}

/// Push the listed low registers (and optionally LR) below SP.
pub open spec fn s_exec_push(c: CpuSnap, m: MemSnap, instr: u16) -> (CpuSnap, MemSnap) {
    let lr = (instr >> 8u16) & 1 != 0;
    let reg_list = instr & 0xFF;
    let count = (s_bits_set(reg_list as u32, 16) + if lr { 1nat } else { 0nat }) as u32;
    let addr = c.regs[13].wrapping_sub(((count * 4) as u32));
    let c1 = s_with_reg(c, 13, addr);
    let stored = s_store_loop8(c1, m, reg_list, addr, 0);
    let m1 = if lr {
        s_mem_write32(stored.0, stored.1, c1.regs[14])
    } else {
        stored.0
    };
    (s_add_cycles(c1, (count + 1) as u64), m1)
}

/// Pop the listed low registers (and optionally the PC, with a Thumb/ARM
/// switch on its low bit) and advance SP past them.
pub open spec fn s_exec_pop(c: CpuSnap, m: MemSnap, instr: u16) -> CpuSnap {
    let pc = (instr >> 8u16) & 1 != 0;
    let reg_list = instr & 0xFF;
    let loaded = s_load_loop8(c, m, reg_list, c.regs[13], 0);
    let c1 = loaded.0;
    let addr1 = loaded.1;
    let cp = if pc {
        let val = s_mem_read32(m, addr1);
        let c2 = if val & 1 != 0 {
            s_with_reg(s_set_flag(c1, CPSR_T, true), 15, val & !1u32)
        } else {
            s_with_reg(s_set_flag(c1, CPSR_T, false), 15, val & !3u32)
        };
        (c2, addr1.wrapping_add(4))
    } else {
        (c1, addr1)
    };
    let c3 = s_with_reg(cp.0, 13, cp.1);
    let count = (s_bits_set(reg_list as u32, 16) + if pc { 1nat } else { 0nat }) as u32;
    s_add_cycles(c3, (count + 2) as u64)
}

/// Multiple load/store with base writeback (the base register keeps its
/// loaded value when it appears in the list).
pub open spec fn s_exec_ldm_stm(c: CpuSnap, m: MemSnap, instr: u16) -> (CpuSnap, MemSnap) {
    let load = (instr >> 11u16) & 1 != 0;
    let rb = ((instr >> 8u16) & 0x7) as int;
    let reg_list = instr & 0xFF;
    let count = s_bits_set(reg_list as u32, 16) as u32;
    let base = c.regs[rb];
    let cm: (CpuSnap, MemSnap, u32) = if load {
        let loaded = s_load_loop8(c, m, reg_list, base, 0);
        (loaded.0, m, loaded.1)
    } else {
        let stored = s_store_loop8(c, m, reg_list, base, 0);
        (c, stored.0, stored.1)
    };
    let c1 = if load && (reg_list >> (rb as u16)) & 1 == 0 {
        s_with_reg(cm.0, rb, cm.2)
    } else if !load {
        s_with_reg(cm.0, rb, cm.2)
    } else {
        cm.0
    };
    (s_add_cycles(c1, (count + if load { 2u32 } else { 1u32 }) as u64), cm.1)
}

/// Conditional branch over a sign-extended 8-bit halfword offset.
pub open spec fn s_exec_cond_branch(c: CpuSnap, instr: u16) -> CpuSnap {
    let cond = ((instr >> 8u16) & 0xF) as u32;
    if !s_check_condition(c, cond) {
        s_add_cycles(c, 1)
    } else {
        let offset = s_sext8((instr & 0xFF) as u32).wrapping_mul(2);
        s_add_cycles(s_with_reg(c, 15, c.regs[15].wrapping_add(offset)), 3)
    }
}

/// Supervisor call from Thumb: latch the 8-bit comment and enter SVC mode
/// in ARM state.
pub open spec fn s_exec_svc_thumb(c: CpuSnap, instr: u16) -> CpuSnap {
    let comment = (instr & 0xFF) as u32;
    let return_addr = c.regs[15].wrapping_sub(2);
    let c1 = s_switch_mode(c, MODE_SVC);
    let c2 = s_set_spsr(c1, c.cpsr);
    let c3 = s_with_reg(c2, 14, return_addr);
    let c4 = CpuSnap {
        cpsr: (c3.cpsr | CPSR_I) & !CPSR_T,
        svc_pending: Some(comment),
        ..c3
    };
    s_add_cycles(c4, 3)
}

/// Unconditional branch over a sign-extended 11-bit halfword offset.
pub open spec fn s_exec_branch_thumb(c: CpuSnap, instr: u16) -> CpuSnap {
    let v = (instr & 0x7FF) as u32;
    let offset = if v & 0x400 != 0 {
        (v << 1u32) | 0xFFFF_F000u32
    } else {
        v << 1u32
    };
    s_add_cycles(s_with_reg(c, 15, c.regs[15].wrapping_add(offset)), 3)
}

/// First half of a long branch-with-link: LR holds the partial target.
pub open spec fn s_exec_bl_prefix(c: CpuSnap, instr: u16) -> CpuSnap {
    let v = (instr & 0x7FF) as u32;
    let offset = if v & 0x400 != 0 {
        (v << 12u32) | 0xFF80_0000u32
    } else {
        v << 12u32
    };
    s_add_cycles(s_with_reg(c, 14, c.regs[15].wrapping_add(offset)), 1)
}

/// Second half of a long branch-with-link: complete the target and set LR
/// to the return address with the Thumb bit.
pub open spec fn s_exec_bl_suffix(c: CpuSnap, instr: u16) -> CpuSnap {
    let offset = ((instr & 0x7FF) as u32) << 1u32;
    let target = c.regs[14].wrapping_add(offset);
    let c1 = s_with_reg(c, 14, (c.regs[15].wrapping_sub(2)) | 1);
    s_add_cycles(s_with_reg(c1, 15, target), 3)
}

/// One decoded and executed Thumb instruction, dispatched on the top byte.
pub open spec fn s_thumb_execute(c: CpuSnap, m: MemSnap, instr: u16) -> (CpuSnap, MemSnap) {
    let b = instr >> 8u16;
    if b <= 0x17 {
        (s_exec_shift_imm(c, instr), m)
    } else if b <= 0x1B {
        (s_exec_add_sub_reg(c, instr), m)
    } else if b <= 0x1F {
        (s_exec_add_sub_imm(c, instr), m)
    } else if b <= 0x27 {
        (s_exec_mov_imm(c, instr), m)
    } else if b <= 0x2F {
        (s_exec_cmp_imm(c, instr), m)
    } else if b <= 0x37 {
        (s_exec_add_imm(c, instr), m)
    } else if b <= 0x3F {
        (s_exec_sub_imm(c, instr), m)
    } else if b <= 0x43 {
        (s_exec_alu(c, instr), m)
    } else if b <= 0x47 {
        (s_exec_hi_reg(c, instr), m)
    } else if b <= 0x4F {
        (s_exec_ldr_pc(c, m, instr), m)
    } else if b <= 0x5F {
        s_exec_load_store_reg(c, m, instr)
    } else if b <= 0x7F {
        s_exec_load_store_imm(c, m, instr)
    } else if b <= 0x8F {
        s_exec_load_store_half(c, m, instr)
    } else if b <= 0x9F {
        s_exec_load_store_sp(c, m, instr)
    } else if b <= 0xAF {
        (s_exec_load_addr(c, instr), m)
    } else if b == 0xB0 {
        (s_exec_add_sp(c, instr), m)
    } else if 0xB4 <= b <= 0xB5 {
        s_exec_push(c, m, instr)
    } else if 0xBC <= b <= 0xBD {
        (s_exec_pop(c, m, instr), m)
    } else if 0xC0 <= b <= 0xCF {
        s_exec_ldm_stm(c, m, instr)
    } else if 0xD0 <= b <= 0xDD {
        (s_exec_cond_branch(c, instr), m)
    } else if b == 0xDF {
        (s_exec_svc_thumb(c, instr), m)
    } else if 0xE0 <= b <= 0xE7 {
        (s_exec_branch_thumb(c, instr), m)
    } else if 0xF0 <= b <= 0xF7 {
        (s_exec_bl_prefix(c, instr), m)
    } else if 0xF8 <= b <= 0xFF {
        (s_exec_bl_suffix(c, instr), m)
    } else {
        (s_add_cycles(c, 1), m)
    }
}

/// A low register number drawn from three instruction bits.
fn reg3(instr: u16, shift: u16) -> (i: usize)
    requires
        shift < 16,
    ensures
        i == ((instr >> shift) & 0x7) as usize,
        i < 8,
        shift == 0 ==> i == (instr & 0x7) as usize,
{
    let v = (instr >> shift) & 0x7;
    proof {
        lemma_and_mask_le_u16(instr >> shift, 0x7);
        if shift == 0 {
            assert(instr >> 0u16 == instr) by (bit_vector);
        }
    }
    v as usize
}

fn exec_shift_imm(cpu: &mut Cpu, instr: u16)
    requires
        old(cpu)@.wf(),
    ensures
        final(cpu)@ == s_exec_shift_imm(old(cpu)@, instr),
        final(cpu)@.wf(),
{
    let op = (instr >> 11) & 0x3;
    let offset = ((instr >> 6) & 0x1F) as u32;
    let rs = reg3(instr, 3);
    let rd = reg3(instr, 0);
    let val = cpu.regs[rs];
    proof {
        lemma_and_mask_le_u16(instr >> 6u16, 0x1F);
    }

    let (result, carry): (u32, bool) = if op == 0 {
        if offset == 0 {
            (val, cpu.flag_c())
        } else {
            (val << offset, (val >> (32 - offset)) & 1 != 0)
        }
    } else if op == 1 {
        if offset == 0 {
            (0, val >> 31 != 0)
        } else {
            (val >> offset, (val >> (offset - 1)) & 1 != 0)
        }
    } else if op == 2 {
        if offset == 0 {
            let bit = val >> 31 != 0;
            (if bit { 0xFFFF_FFFF } else { 0 }, bit)
        } else {
            (asr32(val, offset), (val >> (offset - 1)) & 1 != 0)
        }
    } else {
        (val, cpu.flag_c())
    };

    cpu.regs[rd] = result;
    cpu.set_nz(result);
    cpu.set_flag(CPSR_C, carry);
    cpu.add_cycles(1);
    proof {
        assert(cpu@ =~= s_exec_shift_imm(old(cpu)@, instr));
    }
}

fn exec_add_sub_reg(cpu: &mut Cpu, instr: u16)
    requires
        old(cpu)@.wf(),
    ensures
        final(cpu)@ == s_exec_add_sub_reg(old(cpu)@, instr),
        final(cpu)@.wf(),
{
    let sub = (instr >> 9) & 1 != 0;
    let rn = reg3(instr, 6);
    let rs = reg3(instr, 3);
    let rd = reg3(instr, 0);
    let a = cpu.regs[rs];
    let b = cpu.regs[rn];

    let result = if sub {
        a.wrapping_sub(b)
    } else {
        a.wrapping_add(b)
    };
    cpu.regs[rd] = result;
    cpu.set_nz(result);

    if sub {
        cpu.set_flag(CPSR_C, a >= b);
        cpu.set_flag(CPSR_V, ((a ^ b) & (a ^ result)) >> 31 != 0);
    } else {
        cpu.set_flag(CPSR_C, result < a);
        cpu.set_flag(CPSR_V, (!(a ^ b) & (a ^ result)) >> 31 != 0);
    }
    cpu.add_cycles(1);
    proof {
        assert(cpu@ =~= s_exec_add_sub_reg(old(cpu)@, instr));
    }
}

fn exec_add_sub_imm(cpu: &mut Cpu, instr: u16)
    requires
        old(cpu)@.wf(),
    ensures
        final(cpu)@ == s_exec_add_sub_imm(old(cpu)@, instr),
        final(cpu)@.wf(),
{
    let sub = (instr >> 9) & 1 != 0;
    let imm = ((instr >> 6) & 0x7) as u32;
    let rs = reg3(instr, 3);
    let rd = reg3(instr, 0);
    let a = cpu.regs[rs];

    let result = if sub {
        a.wrapping_sub(imm)
    } else {
        a.wrapping_add(imm)
    };
    cpu.regs[rd] = result;
    cpu.set_nz(result);

    if sub {
        cpu.set_flag(CPSR_C, a >= imm);
        cpu.set_flag(CPSR_V, ((a ^ imm) & (a ^ result)) >> 31 != 0);
    } else {
        cpu.set_flag(CPSR_C, result < a);
        cpu.set_flag(CPSR_V, (!(a ^ imm) & (a ^ result)) >> 31 != 0);
    }
    cpu.add_cycles(1);
    proof {
        assert(cpu@ =~= s_exec_add_sub_imm(old(cpu)@, instr));
    }
}

fn exec_mov_imm(cpu: &mut Cpu, instr: u16)
    requires
        old(cpu)@.wf(),
    ensures
        final(cpu)@ == s_exec_mov_imm(old(cpu)@, instr),
        final(cpu)@.wf(),
{
    let rd = reg3(instr, 8);
    let imm = (instr & 0xFF) as u32;
    cpu.regs[rd] = imm;
    cpu.set_nz(imm);
    cpu.add_cycles(1);
    proof {
        assert(cpu@ =~= s_exec_mov_imm(old(cpu)@, instr));
    }
}

fn exec_cmp_imm(cpu: &mut Cpu, instr: u16)
    requires
        old(cpu)@.wf(),
    ensures
        final(cpu)@ == s_exec_cmp_imm(old(cpu)@, instr),
        final(cpu)@.wf(),
{
    let rd = reg3(instr, 8);
    let imm = (instr & 0xFF) as u32;
    let a = cpu.regs[rd];
    let result = a.wrapping_sub(imm);
    cpu.set_nz(result);
    cpu.set_flag(CPSR_C, a >= imm);
    cpu.set_flag(CPSR_V, ((a ^ imm) & (a ^ result)) >> 31 != 0);
    cpu.add_cycles(1);
    proof {
        assert(cpu@ =~= s_exec_cmp_imm(old(cpu)@, instr));
    }
}

fn exec_add_imm(cpu: &mut Cpu, instr: u16)
    requires
        old(cpu)@.wf(),
    ensures
        final(cpu)@ == s_exec_add_imm(old(cpu)@, instr),
        final(cpu)@.wf(),
{
    let rd = reg3(instr, 8);
    let imm = (instr & 0xFF) as u32;
    let a = cpu.regs[rd];
    let result = a.wrapping_add(imm);
    cpu.regs[rd] = result;
    cpu.set_nz(result);
    cpu.set_flag(CPSR_C, result < a);
    cpu.set_flag(CPSR_V, (!(a ^ imm) & (a ^ result)) >> 31 != 0);
    cpu.add_cycles(1);
    proof {
        assert(cpu@ =~= s_exec_add_imm(old(cpu)@, instr));
    }
}

fn exec_sub_imm(cpu: &mut Cpu, instr: u16)
    requires
        old(cpu)@.wf(),
    ensures
        final(cpu)@ == s_exec_sub_imm(old(cpu)@, instr),
        final(cpu)@.wf(),
{
    let rd = reg3(instr, 8);
    let imm = (instr & 0xFF) as u32;
    let a = cpu.regs[rd];
    let result = a.wrapping_sub(imm);
    cpu.regs[rd] = result;
    cpu.set_nz(result);
    cpu.set_flag(CPSR_C, a >= imm);
    cpu.set_flag(CPSR_V, ((a ^ imm) & (a ^ result)) >> 31 != 0);
    cpu.add_cycles(1);
    proof {
        assert(cpu@ =~= s_exec_sub_imm(old(cpu)@, instr));
    }
}

fn exec_alu(cpu: &mut Cpu, instr: u16)
    requires
        old(cpu)@.wf(),
    ensures
        final(cpu)@ == s_exec_alu(old(cpu)@, instr),
        final(cpu)@.wf(),
{
    let op = (instr >> 6) & 0xF;
    let rs = reg3(instr, 3);
    let rd = reg3(instr, 0);
    let a = cpu.regs[rd];
    let b = cpu.regs[rs];

    if op == 0x8 {
        let r = a & b;
        cpu.set_nz(r);
        cpu.add_cycles(1);
        proof {
            assert(cpu@ =~= s_exec_alu(old(cpu)@, instr));
        }
        return ;
    }
    if op == 0xA {
        let r = a.wrapping_sub(b);
        cpu.set_nz(r);
        cpu.set_flag(CPSR_C, a >= b);
        cpu.set_flag(CPSR_V, ((a ^ b) & (a ^ r)) >> 31 != 0);
        cpu.add_cycles(1);
        proof {
            assert(cpu@ =~= s_exec_alu(old(cpu)@, instr));
        }
        return ;
    }
    if op == 0xB {
        let r = a.wrapping_add(b);
        cpu.set_nz(r);
        cpu.set_flag(CPSR_C, r < a);
        cpu.set_flag(CPSR_V, (!(a ^ b) & (a ^ r)) >> 31 != 0);
        cpu.add_cycles(1);
        proof {
            assert(cpu@ =~= s_exec_alu(old(cpu)@, instr));
        }
        return ;
    }

    let result: u32 = if op == 0x0 {
        a & b
    } else if op == 0x1 {
        a ^ b
    } else if op == 0x2 {
        let shift = b & 0xFF;
        if shift == 0 {
            a
        } else if shift < 32 {
            cpu.set_flag(CPSR_C, (a >> (32 - shift)) & 1 != 0);
            a << shift
        } else if shift == 32 {
            cpu.set_flag(CPSR_C, a & 1 != 0);
            0
        } else {
            cpu.set_flag(CPSR_C, false);
            0
        }
    } else if op == 0x3 {
        let shift = b & 0xFF;
        if shift == 0 {
            a
        } else if shift < 32 {
            cpu.set_flag(CPSR_C, (a >> (shift - 1)) & 1 != 0);
            a >> shift
        } else if shift == 32 {
            cpu.set_flag(CPSR_C, a >> 31 != 0);
            0
        } else {
            cpu.set_flag(CPSR_C, false);
            0
        }
    } else if op == 0x4 {
        let shift = b & 0xFF;
        if shift == 0 {
            a
        } else if shift < 32 {
            cpu.set_flag(CPSR_C, (a >> (shift - 1)) & 1 != 0);
            asr32(a, shift)
        } else {
            let bit = a >> 31 != 0;
            cpu.set_flag(CPSR_C, bit);
            if bit {
                0xFFFF_FFFF
            } else {
                0
            }
        }
    } else if op == 0x5 {
        let cin: u32 = if cpu.flag_c() { 1 } else { 0 };
        let r = a.wrapping_add(b).wrapping_add(cin);
        let carry = (r < a) || (cin == 1 && r == a);
        cpu.set_flag(CPSR_C, carry);
        cpu.set_flag(CPSR_V, (!(a ^ b) & (a ^ r)) >> 31 != 0);
        r
    } else if op == 0x6 {
        let cin: u32 = if cpu.flag_c() { 1 } else { 0 };
        let r = a.wrapping_sub(b).wrapping_sub(1 - cin);
        cpu.set_flag(CPSR_C, a >= b.wrapping_add(1 - cin));
        r
    } else if op == 0x7 {
        let shift = b & 0xFF;
        if shift == 0 {
            a
        } else {
            let eff = shift & 31;
            proof {
                crate::bits::lemma_and_mask_le(shift, 31);
            }
            let r = if eff == 0 {
                a
            } else {
                rotr32(a, eff)
            };
            cpu.set_flag(CPSR_C, r >> 31 != 0);
            r
        }
    } else if op == 0x9 {
        0u32.wrapping_sub(b)
    } else if op == 0xC {
        a | b
    } else if op == 0xD {
        a.wrapping_mul(b)
    } else if op == 0xE {
        a & !b
    } else {
        !b
    };

    cpu.regs[rd] = result;
    cpu.set_nz(result);
    cpu.add_cycles(1);
    proof {
        assert(cpu@ =~= s_exec_alu(old(cpu)@, instr));
    }
}

fn exec_hi_reg(cpu: &mut Cpu, instr: u16)
    requires
        old(cpu)@.wf(),
    ensures
        final(cpu)@ == s_exec_hi_reg(old(cpu)@, instr),
        final(cpu)@.wf(),
{
    let op = (instr >> 8) & 0x3;
    let h1 = (instr >> 7) & 1 != 0;
    let h2 = (instr >> 6) & 1 != 0;
    let rs = reg3(instr, 3) + if h2 { 8 } else { 0 };
    let rd = reg3(instr, 0) + if h1 { 8 } else { 0 };

    if op == 0 {
        let v = cpu.regs[rd].wrapping_add(cpu.regs[rs]);
        cpu.regs[rd] = v;
        if rd == 15 {
            let p = cpu.regs[15];
            cpu.set_pc(p & !1);
        }
    } else if op == 1 {
        let a = cpu.regs[rd];
        let b = cpu.regs[rs];
        let r = a.wrapping_sub(b);
        cpu.set_nz(r);
        cpu.set_flag(CPSR_C, a >= b);
        cpu.set_flag(CPSR_V, ((a ^ b) & (a ^ r)) >> 31 != 0);
    } else if op == 2 {
        let v = cpu.regs[rs];
        cpu.regs[rd] = v;
        if rd == 15 {
            let p = cpu.regs[15];
            cpu.set_pc(p & !1);
        }
    } else {
        let addr = cpu.regs[rs];
        if h1 {
            let lr = (cpu.pc().wrapping_sub(2)) | 1;
            cpu.regs[14] = lr;
        }
        if addr & 1 != 0 {
            cpu.set_flag(CPSR_T, true);
            cpu.set_pc(addr & !1);
        } else {
            cpu.set_flag(CPSR_T, false);
            cpu.set_pc(addr & !3);
        }
    }
    cpu.add_cycles(1);
    proof {
        assert(cpu@ =~= s_exec_hi_reg(old(cpu)@, instr));
    }
}

fn exec_ldr_pc(cpu: &mut Cpu, mem: &Memory, instr: u16)
    requires
        old(cpu)@.wf(),
        mem@.wf(),
    ensures
        final(cpu)@ == s_exec_ldr_pc(old(cpu)@, mem@, instr),
        final(cpu)@.wf(),
{
    let rd = reg3(instr, 8);
    let offset = ((instr & 0xFF) as u32) * 4;
    let addr = (cpu.pc() & !3).wrapping_add(offset);
    let v = mem.read32(addr);
    cpu.regs[rd] = v;
    cpu.add_cycles(3);
    proof {
        assert(cpu@ =~= s_exec_ldr_pc(old(cpu)@, mem@, instr));
    }
}

fn exec_load_store_reg(cpu: &mut Cpu, mem: &mut Memory, instr: u16)
    requires
        old(cpu)@.wf(),
        old(mem)@.wf(),
    ensures
        final(cpu)@ == s_exec_load_store_reg(old(cpu)@, old(mem)@, instr).0,
        final(mem)@ == s_exec_load_store_reg(old(cpu)@, old(mem)@, instr).1,
        final(cpu)@.wf(),
        final(mem)@.wf(),
{
    let op = (instr >> 9) & 0x7;
    let ro = reg3(instr, 6);
    let rb = reg3(instr, 3);
    let rd = reg3(instr, 0);
    let addr = cpu.regs[rb].wrapping_add(cpu.regs[ro]);

    if op == 0 {
        let v = cpu.regs[rd];
        mem.write32(addr & !3, v);
    } else if op == 1 {
        let v = cpu.regs[rd];
        mem.write16(addr & !1, v as u16);
    } else if op == 2 {
        let v = cpu.regs[rd];
        mem.write8(addr, v as u8);
    } else if op == 3 {
        let v = sext8(mem.read8(addr) as u32);
        cpu.regs[rd] = v;
    } else if op == 4 {
        let v = mem.read32(addr & !3);
        cpu.regs[rd] = v;
    } else if op == 5 {
        let v = mem.read16(addr & !1) as u32;
        cpu.regs[rd] = v;
    } else if op == 6 {
        let v = mem.read8(addr) as u32;
        cpu.regs[rd] = v;
    } else {
        let v = sext16(mem.read16(addr & !1) as u32);
        cpu.regs[rd] = v;
    }
    cpu.add_cycles(if op >= 3 { 3 } else { 2 });
    proof {
        assert(cpu@ =~= s_exec_load_store_reg(old(cpu)@, old(mem)@, instr).0);
        assert(mem@ =~= s_exec_load_store_reg(old(cpu)@, old(mem)@, instr).1);
    }
}

fn exec_load_store_imm(cpu: &mut Cpu, mem: &mut Memory, instr: u16)
    requires
        old(cpu)@.wf(),
        old(mem)@.wf(),
    ensures
        final(cpu)@ == s_exec_load_store_imm(old(cpu)@, old(mem)@, instr).0,
        final(mem)@ == s_exec_load_store_imm(old(cpu)@, old(mem)@, instr).1,
        final(cpu)@.wf(),
        final(mem)@.wf(),
{
    let byte = (instr >> 12) & 1 != 0;
    let load = (instr >> 11) & 1 != 0;
    let offset = ((instr >> 6) & 0x1F) as u32;
    let rb = reg3(instr, 3);
    let rd = reg3(instr, 0);
    proof {
        lemma_and_mask_le_u16(instr >> 6u16, 0x1F);
    }

    if byte {
        let addr = cpu.regs[rb].wrapping_add(offset);
        if load {
            let v = mem.read8(addr) as u32;
            cpu.regs[rd] = v;
        } else {
            let v = cpu.regs[rd];
            mem.write8(addr, v as u8);
        }
    } else {
        let addr = cpu.regs[rb].wrapping_add(offset * 4);
        if load {
            let v = mem.read32(addr & !3);
            cpu.regs[rd] = v;
        } else {
            let v = cpu.regs[rd];
            mem.write32(addr & !3, v);
        }
    }
    cpu.add_cycles(if load { 3 } else { 2 });
    proof {
        assert(cpu@ =~= s_exec_load_store_imm(old(cpu)@, old(mem)@, instr).0);
        assert(mem@ =~= s_exec_load_store_imm(old(cpu)@, old(mem)@, instr).1);
    }
}

fn exec_load_store_half(cpu: &mut Cpu, mem: &mut Memory, instr: u16)
    requires
        old(cpu)@.wf(),
        old(mem)@.wf(),
    ensures
        final(cpu)@ == s_exec_load_store_half(old(cpu)@, old(mem)@, instr).0,
        final(mem)@ == s_exec_load_store_half(old(cpu)@, old(mem)@, instr).1,
        final(cpu)@.wf(),
        final(mem)@.wf(),
{
    let load = (instr >> 11) & 1 != 0;
    let offset = (((instr >> 6) & 0x1F) as u32) * 2;
    let rb = reg3(instr, 3);
    let rd = reg3(instr, 0);
    proof {
        lemma_and_mask_le_u16(instr >> 6u16, 0x1F);
    }
    let addr = cpu.regs[rb].wrapping_add(offset);

    if load {
        let v = mem.read16(addr & !1) as u32;
        cpu.regs[rd] = v;
    } else {
        let v = cpu.regs[rd];
        mem.write16(addr & !1, v as u16);
    }
    cpu.add_cycles(if load { 3 } else { 2 });
    proof {
        assert(cpu@ =~= s_exec_load_store_half(old(cpu)@, old(mem)@, instr).0);
        assert(mem@ =~= s_exec_load_store_half(old(cpu)@, old(mem)@, instr).1);
    }
}

fn exec_load_store_sp(cpu: &mut Cpu, mem: &mut Memory, instr: u16)
    requires
        old(cpu)@.wf(),
        old(mem)@.wf(),
    ensures
        final(cpu)@ == s_exec_load_store_sp(old(cpu)@, old(mem)@, instr).0,
        final(mem)@ == s_exec_load_store_sp(old(cpu)@, old(mem)@, instr).1,
        final(cpu)@.wf(),
        final(mem)@.wf(),
{
    let load = (instr >> 11) & 1 != 0;
    let rd = reg3(instr, 8);
    let offset = ((instr & 0xFF) as u32) * 4;
    let addr = cpu.regs[13].wrapping_add(offset);

    if load {
        let v = mem.read32(addr & !3);
        cpu.regs[rd] = v;
    } else {
        let v = cpu.regs[rd];
        mem.write32(addr & !3, v);
    }
    cpu.add_cycles(if load { 3 } else { 2 });
    proof {
        assert(cpu@ =~= s_exec_load_store_sp(old(cpu)@, old(mem)@, instr).0);
        assert(mem@ =~= s_exec_load_store_sp(old(cpu)@, old(mem)@, instr).1);
    }
}

fn exec_load_addr(cpu: &mut Cpu, instr: u16)
    requires
        old(cpu)@.wf(),
    ensures
        final(cpu)@ == s_exec_load_addr(old(cpu)@, instr),
        final(cpu)@.wf(),
{
    let sp = (instr >> 11) & 1 != 0;
    let rd = reg3(instr, 8);
    let offset = ((instr & 0xFF) as u32) * 4;
    let v = if sp {
        cpu.regs[13].wrapping_add(offset)
    } else {
        (cpu.pc() & !3).wrapping_add(offset)
    };
    cpu.regs[rd] = v;
    cpu.add_cycles(1);
    proof {
        assert(cpu@ =~= s_exec_load_addr(old(cpu)@, instr));
    }
}

fn exec_add_sp(cpu: &mut Cpu, instr: u16)
    requires
        old(cpu)@.wf(),
    ensures
        final(cpu)@ == s_exec_add_sp(old(cpu)@, instr),
        final(cpu)@.wf(),
{
    let neg = (instr >> 7) & 1 != 0;
    let offset = (((instr & 0x7F) as u32) * 4) as u32;
    let v = if neg {
        cpu.regs[13].wrapping_sub(offset)
    } else {
        cpu.regs[13].wrapping_add(offset)
    };
    cpu.regs[13] = v;
    cpu.add_cycles(1);
    proof {
        assert(cpu@ =~= s_exec_add_sp(old(cpu)@, instr));
    }
}

fn exec_push(cpu: &mut Cpu, mem: &mut Memory, instr: u16)
    requires
        old(cpu)@.wf(),
        old(mem)@.wf(),
    ensures
        final(cpu)@ == s_exec_push(old(cpu)@, old(mem)@, instr).0,
        final(mem)@ == s_exec_push(old(cpu)@, old(mem)@, instr).1,
        final(cpu)@.wf(),
        final(mem)@.wf(),
{
    let lr = (instr >> 8) & 1 != 0;
    let reg_list = instr & 0xFF;
    let bits = count_bits16(reg_list as u32);
    let count = bits + if lr { 1 } else { 0 };
    let start = cpu.regs[13].wrapping_sub(count * 4);
    cpu.regs[13] = start;

    let ghost c1 = cpu@;
    let ghost m0 = mem@;
    let mut addr = start;
    let mut i: u16 = 0;
    while i < 8
        invariant
            i <= 8,
            cpu@ == c1,
            cpu@.wf(),
            mem@.wf(),
            s_store_loop8(c1, m0, reg_list, start, 0) == s_store_loop8(
                c1,
                mem@,
                reg_list,
                addr,
                i as nat,
            ),
        decreases 8 - i,
    {
        if (reg_list >> i) & 1 != 0 {
            let v = cpu.regs[i as usize];
            mem.write32(addr, v);
            addr = addr.wrapping_add(4);
        }
        i = i + 1;
    }
    if lr {
        let v = cpu.regs[14];
        mem.write32(addr, v);
    }
    cpu.add_cycles((count as u64) + 1);
    proof {
        assert(cpu@ =~= s_exec_push(old(cpu)@, old(mem)@, instr).0);
        assert(mem@ =~= s_exec_push(old(cpu)@, old(mem)@, instr).1);
    }
}

fn exec_pop(cpu: &mut Cpu, mem: &Memory, instr: u16)
    requires
        old(cpu)@.wf(),
        mem@.wf(),
    ensures
        final(cpu)@ == s_exec_pop(old(cpu)@, mem@, instr),
        final(cpu)@.wf(),
{
    let pc = (instr >> 8) & 1 != 0;
    let reg_list = instr & 0xFF;
    let ghost c0 = cpu@;
    let mut addr = cpu.regs[13];
    let ghost start = addr;

    let mut i: u16 = 0;
    while i < 8
        invariant
            i <= 8,
            cpu@.wf(),
            mem@.wf(),
            s_load_loop8(c0, mem@, reg_list, start, 0) == s_load_loop8(
                cpu@,
                mem@,
                reg_list,
                addr,
                i as nat,
            ),
        decreases 8 - i,
    {
        if (reg_list >> i) & 1 != 0 {
            let v = mem.read32(addr);
            cpu.regs[i as usize] = v;
            addr = addr.wrapping_add(4);
        }
        i = i + 1;
    }

    if pc {
        let val = mem.read32(addr);
        addr = addr.wrapping_add(4);
        if val & 1 != 0 {
            cpu.set_flag(CPSR_T, true);
            cpu.set_pc(val & !1);
        } else {
            cpu.set_flag(CPSR_T, false);
            cpu.set_pc(val & !3);
        }
    }
    cpu.regs[13] = addr;
    let bits = count_bits16(reg_list as u32);
    let count = bits + if pc { 1 } else { 0 };
    cpu.add_cycles((count as u64) + 2);
    proof {
        assert(cpu@ =~= s_exec_pop(old(cpu)@, mem@, instr));
    }
}

fn exec_ldm_stm(cpu: &mut Cpu, mem: &mut Memory, instr: u16)
    requires
        old(cpu)@.wf(),
        old(mem)@.wf(),
    ensures
        final(cpu)@ == s_exec_ldm_stm(old(cpu)@, old(mem)@, instr).0,
        final(mem)@ == s_exec_ldm_stm(old(cpu)@, old(mem)@, instr).1,
        final(cpu)@.wf(),
        final(mem)@.wf(),
{
    let load = (instr >> 11) & 1 != 0;
    let rb = reg3(instr, 8);
    let reg_list = instr & 0xFF;
    let ghost c0 = cpu@;
    let ghost m0 = mem@;
    let mut addr = cpu.regs[rb];
    let ghost start = addr;

    let mut i: u16 = 0;
    while i < 8
        invariant
            i <= 8,
            cpu@.wf(),
            mem@.wf(),
            load ==> mem@ == m0 && s_load_loop8(c0, m0, reg_list, start, 0) == s_load_loop8(
                cpu@,
                m0,
                reg_list,
                addr,
                i as nat,
            ),
            !load ==> cpu@ == c0 && s_store_loop8(c0, m0, reg_list, start, 0) == s_store_loop8(
                c0,
                mem@,
                reg_list,
                addr,
                i as nat,
            ),
        decreases 8 - i,
    {
        if (reg_list >> i) & 1 != 0 {
            if load {
                let v = mem.read32(addr);
                cpu.regs[i as usize] = v;
            } else {
                let v = cpu.regs[i as usize];
                mem.write32(addr, v);
            }
            addr = addr.wrapping_add(4);
        }
        i = i + 1;
    }

    if load && (reg_list >> (rb as u16)) & 1 == 0 {
        cpu.regs[rb] = addr;
    }
    if !load {
        cpu.regs[rb] = addr;
    }
    let bits = count_bits16(reg_list as u32);
    cpu.add_cycles((bits as u64) + if load { 2 } else { 1 });
    proof {
        assert(cpu@ =~= s_exec_ldm_stm(old(cpu)@, old(mem)@, instr).0);
        assert(mem@ =~= s_exec_ldm_stm(old(cpu)@, old(mem)@, instr).1);
    }
}

fn exec_cond_branch(cpu: &mut Cpu, instr: u16)
    requires
        old(cpu)@.wf(),
    ensures
        final(cpu)@ == s_exec_cond_branch(old(cpu)@, instr),
        final(cpu)@.wf(),
{
    let cond = ((instr >> 8) & 0xF) as u32;
    if !cpu.check_condition(cond) {
        cpu.add_cycles(1);
        proof {
            assert(cpu@ =~= s_exec_cond_branch(old(cpu)@, instr));
        }
        return ;
    }
    let offset = sext8((instr & 0xFF) as u32).wrapping_mul(2);
    let target = cpu.pc().wrapping_add(offset);
    cpu.set_pc(target);
    cpu.add_cycles(3);
    proof {
        assert(cpu@ =~= s_exec_cond_branch(old(cpu)@, instr));
    }
}

fn exec_svc(cpu: &mut Cpu, instr: u16)
    requires
        old(cpu)@.wf(),
    ensures
        final(cpu)@ == s_exec_svc_thumb(old(cpu)@, instr),
        final(cpu)@.wf(),
{
    let comment = (instr & 0xFF) as u32;
    let return_addr = cpu.pc().wrapping_sub(2);
    let old_cpsr = cpu.cpsr;
    cpu.switch_mode(MODE_SVC);
    cpu.set_spsr(old_cpsr);
    cpu.regs[14] = return_addr;
    cpu.cpsr = (cpu.cpsr | CPSR_I) & !CPSR_T;
    cpu.svc_pending = Some(comment);
    cpu.add_cycles(3);
    proof {
        assert(cpu@ =~= s_exec_svc_thumb(old(cpu)@, instr));
    }
}

fn exec_branch(cpu: &mut Cpu, instr: u16)
    requires
        old(cpu)@.wf(),
    ensures
        final(cpu)@ == s_exec_branch_thumb(old(cpu)@, instr),
        final(cpu)@.wf(),
{
    let v = (instr & 0x7FF) as u32;
    let offset = if v & 0x400 != 0 {
        (v << 1) | 0xFFFF_F000
    } else {
        v << 1
    };
    let target = cpu.pc().wrapping_add(offset);
    cpu.set_pc(target);
    cpu.add_cycles(3);
    proof {
        assert(cpu@ =~= s_exec_branch_thumb(old(cpu)@, instr));
    }
}

fn exec_bl_prefix(cpu: &mut Cpu, instr: u16)
    requires
        old(cpu)@.wf(),
    ensures
        final(cpu)@ == s_exec_bl_prefix(old(cpu)@, instr),
        final(cpu)@.wf(),
{
    let v = (instr & 0x7FF) as u32;
    let offset = if v & 0x400 != 0 {
        (v << 12) | 0xFF80_0000
    } else {
        v << 12
    };
    let lr = cpu.pc().wrapping_add(offset);
    cpu.regs[14] = lr;
    cpu.add_cycles(1);
    proof {
        assert(cpu@ =~= s_exec_bl_prefix(old(cpu)@, instr));
    }
}

fn exec_bl_suffix(cpu: &mut Cpu, instr: u16)
    requires
        old(cpu)@.wf(),
    ensures
        final(cpu)@ == s_exec_bl_suffix(old(cpu)@, instr),
        final(cpu)@.wf(),
{
    let offset = ((instr & 0x7FF) as u32) << 1;
    let target = cpu.regs[14].wrapping_add(offset);
    let lr = (cpu.pc().wrapping_sub(2)) | 1;
    cpu.regs[14] = lr;
    cpu.set_pc(target);
    cpu.add_cycles(3);
    proof {
        assert(cpu@ =~= s_exec_bl_suffix(old(cpu)@, instr));
    }
}

/// Decode and execute one Thumb instruction against the CPU and memory.
pub fn execute(cpu: &mut Cpu, mem: &mut Memory, instr: u16)
    requires
        old(cpu)@.wf(),
        old(mem)@.wf(),
    ensures
        final(cpu)@ == s_thumb_execute(old(cpu)@, old(mem)@, instr).0,
        final(mem)@ == s_thumb_execute(old(cpu)@, old(mem)@, instr).1,
        final(cpu)@.wf(),
        final(mem)@.wf(),
{
    let b = instr >> 8;

    if b <= 0x17 {
        exec_shift_imm(cpu, instr);
    } else if b <= 0x1B {
        exec_add_sub_reg(cpu, instr);
    } else if b <= 0x1F {
        exec_add_sub_imm(cpu, instr);
    } else if b <= 0x27 {
        exec_mov_imm(cpu, instr);
    } else if b <= 0x2F {
        exec_cmp_imm(cpu, instr);
    } else if b <= 0x37 {
        exec_add_imm(cpu, instr);
    } else if b <= 0x3F {
        exec_sub_imm(cpu, instr);
    } else if b <= 0x43 {
        exec_alu(cpu, instr);
    } else if b <= 0x47 {
        exec_hi_reg(cpu, instr);
    } else if b <= 0x4F {
        exec_ldr_pc(cpu, mem, instr);
    } else if b <= 0x5F {
        exec_load_store_reg(cpu, mem, instr);
    } else if b <= 0x7F {
        exec_load_store_imm(cpu, mem, instr);
    } else if b <= 0x8F {
        exec_load_store_half(cpu, mem, instr);
    } else if b <= 0x9F {
        exec_load_store_sp(cpu, mem, instr);
    } else if b <= 0xAF {
        exec_load_addr(cpu, instr);
    } else if b == 0xB0 {
        exec_add_sp(cpu, instr);
    } else if 0xB4 <= b && b <= 0xB5 {
        exec_push(cpu, mem, instr);
    } else if 0xBC <= b && b <= 0xBD {
        exec_pop(cpu, mem, instr);
    } else if 0xC0 <= b && b <= 0xCF {
        exec_ldm_stm(cpu, mem, instr);
    } else if 0xD0 <= b && b <= 0xDD {
        exec_cond_branch(cpu, instr);
    } else if b == 0xDF {
        exec_svc(cpu, instr);
    } else if 0xE0 <= b && b <= 0xE7 {
        exec_branch(cpu, instr);
    } else if 0xF0 <= b && b <= 0xF7 {
        exec_bl_prefix(cpu, instr);
    } else if 0xF8 <= b && b <= 0xFF {
        exec_bl_suffix(cpu, instr);
    } else {
        cpu.add_cycles(1);
    }
}

} // verus!
