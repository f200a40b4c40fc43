//! Interpreter for the 32-bit ARM instruction set.
//!
//! Every handler is specified by a pure function from a CPU/memory snapshot
//! pair to the next one; `s_arm_execute` composes them under the decode
//! cascade, so one executed instruction is a mathematical function of the
//! pre-state.

use vstd::prelude::*;

verus! {

use crate::bits::lemma_and_mask_le;
use crate::bits::rotr32;
use crate::bits::s_rotr32;
use crate::bits::asr32;
use crate::bits::s_asr32;
use crate::bits::sext8;
use crate::bits::s_sext8;
use crate::bits::sext16;
use crate::bits::s_sext16;
use crate::bits::sext64;
use crate::bits::s_sext64;
use crate::bits::count_bits16;
use crate::bits::s_bits_set;
use crate::cpu::Cpu;
use crate::cpu::CpuSnap;
use crate::cpu::CPSR_C;
use crate::cpu::CPSR_I;
use crate::cpu::CPSR_T;
use crate::cpu::CPSR_V;
use crate::cpu::CPSR_Z;
use crate::cpu::MODE_SVC;
use crate::cpu::s_add_cycles;
use crate::cpu::s_check_condition;
use crate::cpu::s_flag_c;
use crate::cpu::s_flag_z;
use crate::cpu::s_get_spsr;
use crate::cpu::s_in_thumb;
use crate::cpu::s_set_flag;
use crate::cpu::s_set_nz;
use crate::cpu::s_set_spsr;
use crate::cpu::s_switch_mode;
use crate::cpu::s_with_reg;
use crate::cpu::cp15::s_cp15_read;
use crate::cpu::cp15::s_cp15_write;
use crate::memory::MemSnap;
use crate::memory::Memory;
use crate::memory::s_mem_read8;
use crate::memory::s_mem_read16;
use crate::memory::s_mem_read32;
use crate::memory::s_mem_write8;
use crate::memory::s_mem_write16;
use crate::memory::s_mem_write32;

/// Branch / branch-with-link: a sign-extended 24-bit word offset relative to
/// the fetched-ahead PC; the link register receives the return address.
pub open spec fn s_exec_branch(c: CpuSnap, instr: u32) -> CpuSnap {
    let link = (instr >> 24u32) & 1 != 0;
    let offset = s_asr32((instr & 0x00FF_FFFF) << 8u32, 6);
    let c1 = if link {
        s_with_reg(c, 14, c.regs[15].wrapping_sub(4))
    } else {
        c
    };
    let target = c1.regs[15].wrapping_add(offset);
    s_add_cycles(s_with_reg(c1, 15, target), 3)
}

/// Branch-and-exchange: bit 0 of the target selects Thumb; the PC is aligned
/// to the selected instruction width.
pub open spec fn s_exec_bx(c: CpuSnap, instr: u32) -> CpuSnap {
    let rm = (instr & 0xF) as int;
    let addr = c.regs[rm];
    let c1 = if addr & 1 != 0 {
        s_with_reg(s_set_flag(c, CPSR_T, true), 15, addr & !1u32)
    } else {
        s_with_reg(s_set_flag(c, CPSR_T, false), 15, addr & !3u32)
    };
    s_add_cycles(c1, 3)
}

/// BLX (register): BX that also links the return address.
pub open spec fn s_exec_blx_reg(c: CpuSnap, instr: u32) -> CpuSnap {
    let c0 = s_with_reg(c, 14, c.regs[15].wrapping_sub(4));
    s_exec_bx(c0, instr)
}

/// Supervisor call: latch the 24-bit comment, bank the CPSR into the SVC
/// SPSR, enter SVC mode with IRQs masked, and set the return address.
pub open spec fn s_exec_svc(c: CpuSnap, instr: u32) -> CpuSnap {
    let comment = instr & 0x00FF_FFFF;
    let return_addr = c.regs[15].wrapping_sub(4);
    let c1 = s_switch_mode(c, MODE_SVC);
    let c2 = s_set_spsr(c1, c.cpsr);
    let c3 = s_with_reg(c2, 14, return_addr);
    let c4 = CpuSnap { cpsr: c3.cpsr | CPSR_I, svc_pending: Some(comment), ..c3 };
    s_add_cycles(c4, 3)
}

/// The barrel shifter: second-operand value and carry-out for an immediate
/// or (possibly register-shifted) register operand, with the ARM tie-breaks
/// for immediate shift amount zero (LSR#32, ASR#32, RRX).
pub open spec fn s_barrel_shifter(c: CpuSnap, instr: u32, is_imm: bool) -> (u32, bool) {
    let carry = s_flag_c(c);
    if is_imm {
        let imm = instr & 0xFF;
        let rot = ((instr >> 8u32) & 0xF) * 2;
        if rot == 0 {
            (imm, carry)
        } else {
            let result = s_rotr32(imm, rot as u32);
            (result, result >> 31u32 != 0)
        }
    } else {
        let rm = (instr & 0xF) as int;
        let val = c.regs[rm];
        let shift_type = (instr >> 5u32) & 0x3;
        let shift_by_reg = (instr >> 4u32) & 1 != 0;
        let amount = if shift_by_reg {
            c.regs[((instr >> 8u32) & 0xF) as int] & 0xFF
        } else {
            (instr >> 7u32) & 0x1F
        };
        if amount == 0 && !shift_by_reg {
            if shift_type == 0 {
                (val, carry)
            } else if shift_type == 1 {
                (0u32, val >> 31u32 != 0)
            } else if shift_type == 2 {
                let bit31 = val >> 31u32 != 0;
                (if bit31 { 0xFFFF_FFFFu32 } else { 0u32 }, bit31)
            } else {
                let result = (if carry { 1u32 << 31u32 } else { 0u32 }) | (val >> 1u32);
                (result, val & 1 != 0)
            }
        } else if amount == 0 {
            (val, carry)
        } else if shift_type == 0 {
            if amount >= 32 {
                (0u32, if amount == 32 { val & 1 != 0 } else { false })
            } else {
                (val << amount, (val >> ((32 - amount) as u32)) & 1 != 0)
            }
        } else if shift_type == 1 {
            if amount >= 32 {
                (0u32, if amount == 32 { val >> 31u32 != 0 } else { false })
            } else {
                (val >> amount, (val >> ((amount - 1) as u32)) & 1 != 0)
            }
        } else if shift_type == 2 {
            if amount >= 32 {
                let bit31 = val >> 31u32 != 0;
                (if bit31 { 0xFFFF_FFFFu32 } else { 0u32 }, bit31)
            } else {
                (s_asr32(val, amount), (val >> ((amount - 1) as u32)) & 1 != 0)
            }
        } else {
            let effective = amount & 31;
            if effective == 0 {
                (val, val >> 31u32 != 0)
            } else {
                (s_rotr32(val, effective), (val >> ((effective - 1) as u32)) & 1 != 0)
            }
        }
    }
}

/// One of the sixteen ALU operations: the result and whether it is written
/// back (comparisons and tests are not).
pub open spec fn s_alu_op(c: CpuSnap, opcode: u32, op1: u32, op2: u32) -> (u32, bool) {
    if opcode == 0x0 {
        (op1 & op2, true)
    } else if opcode == 0x1 {
        (op1 ^ op2, true)
    } else if opcode == 0x2 {
        (op1.wrapping_sub(op2), true)
    } else if opcode == 0x3 {
        (op2.wrapping_sub(op1), true)
    } else if opcode == 0x4 {
        (op1.wrapping_add(op2), true)
    } else if opcode == 0x5 {
        let cin: u32 = if s_flag_c(c) { 1 } else { 0 };
        (op1.wrapping_add(op2).wrapping_add(cin), true)
    } else if opcode == 0x6 {
        let cin: u32 = if s_flag_c(c) { 1 } else { 0 };
        (op1.wrapping_sub(op2).wrapping_sub((1 - cin) as u32), true)
    } else if opcode == 0x7 {
        let cin: u32 = if s_flag_c(c) { 1 } else { 0 };
        (op2.wrapping_sub(op1).wrapping_sub((1 - cin) as u32), true)
    } else if opcode == 0x8 {
        (op1 & op2, false)
    } else if opcode == 0x9 {
        (op1 ^ op2, false)
    } else if opcode == 0xA {
        (op1.wrapping_sub(op2), false)
    } else if opcode == 0xB {
        (op1.wrapping_add(op2), false)
    } else if opcode == 0xC {
        (op1 | op2, true)
    } else if opcode == 0xD {
        (op2, true)
    } else if opcode == 0xE {
        (op1 & !op2, true)
    } else {
        (!op2, true)
    }
}

/// Data processing: ALU result from the barrel shifter's second operand,
/// optional flag update (arithmetic carry/overflow or shifter carry-out),
/// and the mode-return special case of writing R15 with the S bit.
pub open spec fn s_exec_data_processing(c: CpuSnap, instr: u32, is_imm: bool) -> CpuSnap {
    let opcode = (instr >> 21u32) & 0xF;
    let set_flags = (instr >> 20u32) & 1 != 0;
    let rn = ((instr >> 16u32) & 0xF) as int;
    let rd = ((instr >> 12u32) & 0xF) as int;
    let op1 = c.regs[rn];
    let op2 = s_barrel_shifter(c, instr, is_imm).0;
    let shifter_carry = s_barrel_shifter(c, instr, is_imm).1;
    let result = s_alu_op(c, opcode, op1, op2).0;
    let write_rd = s_alu_op(c, opcode, op1, op2).1;
    if write_rd && rd == 15 {
        let c1 = s_with_reg(c, rd, result);
        let c2 = if set_flags {
            CpuSnap { cpsr: s_get_spsr(c1), ..c1 }
        } else {
            c1
        };
        let c3 = if s_in_thumb(c2) {
            s_with_reg(c2, 15, result & !1u32)
        } else {
            s_with_reg(c2, 15, result & !3u32)
        };
        s_add_cycles(c3, 3)
    } else {
        let c1 = if write_rd {
            s_with_reg(c, rd, result)
        } else {
            c
        };
        let c4 = if set_flags {
            let c2 = s_set_nz(c1, result);
            if opcode == 0x2 || opcode == 0x3 || opcode == 0xA {
                let a = if opcode == 0x3 { op2 } else { op1 };
                let b = if opcode == 0x3 { op1 } else { op2 };
                let c3 = s_set_flag(c2, CPSR_C, a >= b);
                s_set_flag(c3, CPSR_V, ((a ^ b) & (a ^ result)) >> 31u32 != 0)
            } else if opcode == 0x4 || opcode == 0x5 || opcode == 0xB {
                let carry_out = (result < op1) || (opcode == 0x5 && s_flag_c(c2) && result == op1);
                let c3 = s_set_flag(c2, CPSR_C, carry_out);
                s_set_flag(c3, CPSR_V, (!(op1 ^ op2) & (op1 ^ result)) >> 31u32 != 0)
            } else if opcode == 0x6 || opcode == 0x7 {
                c2
            } else {
                s_set_flag(c2, CPSR_C, shifter_carry)
            }
        } else {
            c1
        };
        s_add_cycles(c4, 1)
    }
}

/// The offset of a single transfer: a 12-bit immediate or a register with an
/// immediate-amount shift (shift amount zero selecting LSR#32, ASR#32, RRX).
pub open spec fn s_single_transfer_offset(c: CpuSnap, instr: u32) -> u32 {
    let is_reg = (instr >> 25u32) & 1 != 0;
    if is_reg {
        let rm_val = c.regs[(instr & 0xF) as int];
        let shift_type = (instr >> 5u32) & 0x3;
        let shift_amount = (instr >> 7u32) & 0x1F;
        if shift_type == 0 {
            rm_val << shift_amount
        } else if shift_type == 1 {
            if shift_amount == 0 {
                0
            } else {
                rm_val >> shift_amount
            }
        } else if shift_type == 2 {
            if shift_amount == 0 {
                if rm_val >> 31u32 != 0 {
                    0xFFFF_FFFFu32
                } else {
                    0u32
                }
            } else {
                s_asr32(rm_val, shift_amount)
            }
        } else {
            if shift_amount == 0 {
                (if s_flag_c(c) { 1u32 << 31u32 } else { 0u32 }) | (rm_val >> 1u32)
            } else {
                s_rotr32(rm_val, shift_amount)
            }
        }
    } else {
        instr & 0xFFF
    }
}

/// Single transfer (LDR/STR): pre- or post-indexed, up or down, byte or
/// word, optional writeback; a misaligned word load returns the aligned word
/// rotated by the low address bits.
pub open spec fn s_exec_single_transfer(c: CpuSnap, m: MemSnap, instr: u32) -> (CpuSnap, MemSnap) {
    let pre = (instr >> 24u32) & 1 != 0;
    let up = (instr >> 23u32) & 1 != 0;
    let byte = (instr >> 22u32) & 1 != 0;
    let writeback = (instr >> 21u32) & 1 != 0;
    let load = (instr >> 20u32) & 1 != 0;
    let rn = ((instr >> 16u32) & 0xF) as int;
    let rd = ((instr >> 12u32) & 0xF) as int;
    let base = c.regs[rn];
    let offset = s_single_transfer_offset(c, instr);
    let addr = if pre {
        if up {
            base.wrapping_add(offset)
        } else {
            base.wrapping_sub(offset)
        }
    } else {
        base
    };
    let cm1 = if load {
        let raw = if byte {
            s_mem_read8(m, addr) as u32
        } else {
            s_mem_read32(m, addr & !3u32)
        };
        let val = if !byte && (addr & 3) != 0 {
            s_rotr32(raw, (((addr & 3) * 8) as u32))
        } else {
            raw
        };
        let c1 = s_with_reg(c, rd, val);
        let c2 = if rd == 15 {
            s_with_reg(c1, 15, c1.regs[15] & !3u32)
        } else {
            c1
        };
        (c2, m)
    } else {
        let val = if rd == 15 {
            c.regs[15].wrapping_add(4)
        } else {
            c.regs[rd]
        };
        let m1 = if byte {
            s_mem_write8(m, addr, val as u8)
        } else {
            s_mem_write32(m, addr & !3u32, val)
        };
        (c, m1)
    };
    let c_wb = if !pre {
        let final_addr = if up {
            base.wrapping_add(offset)
        } else {
            base.wrapping_sub(offset)
        };
        s_with_reg(cm1.0, rn, final_addr)
    } else if writeback {
        s_with_reg(cm1.0, rn, addr)
    } else {
        cm1.0
    };
    (s_add_cycles(c_wb, if load { 3 } else { 2 }), cm1.1)
}

/// The register loop of a block transfer: registers `i..16` whose bits are
/// set, loaded from or stored to consecutive words from `addr`.
pub open spec fn s_block_loop(
    c: CpuSnap,
    m: MemSnap,
    load: bool,
    reg_list: u32,
    addr: u32,
    i: nat,
) -> (CpuSnap, MemSnap, u32)
    decreases 16 - i,
{
    if i >= 16 {
        (c, m, addr)
    } else if (reg_list >> (i as u32)) & 1 == 0 {
        s_block_loop(c, m, load, reg_list, addr, i + 1)
    } else if load {
        s_block_loop(
            s_with_reg(c, i as int, s_mem_read32(m, addr)),
            m,
            load,
            reg_list,
            addr.wrapping_add(4),
            i + 1,
        )
    } else {
        s_block_loop(
            c,
            s_mem_write32(m, addr, c.regs[i as int]),
            load,
            reg_list,
            addr.wrapping_add(4),
            i + 1,
        )
    }
}

/// The register loop preserves well-formedness of the CPU snapshot.
pub proof fn lemma_block_loop_wf(
    c: CpuSnap,
    m: MemSnap,
    load: bool,
    reg_list: u32,
    addr: u32,
    i: nat,
)
    requires
        c.wf(),
    ensures
        s_block_loop(c, m, load, reg_list, addr, i).0.wf(),
        s_block_loop(c, m, load, reg_list, addr, i).0.cpsr == c.cpsr,
    decreases 16 - i,
{
    if i < 16 {
        if (reg_list >> (i as u32)) & 1 == 0 {
            lemma_block_loop_wf(c, m, load, reg_list, addr, i + 1);
        } else if load {
            lemma_block_loop_wf(
                s_with_reg(c, i as int, s_mem_read32(m, addr)),
                m,
                load,
                reg_list,
                addr.wrapping_add(4),
                i + 1,
            );
        } else {
            lemma_block_loop_wf(
                c,
                s_mem_write32(m, addr, c.regs[i as int]),
                load,
                reg_list,
                addr.wrapping_add(4),
                i + 1,
            );
        }
    }
}

/// Block transfer (LDM/STM): one of the four addressing modes, optional
/// writeback, and the Thumb switch when R15 is loaded with bit 0 set.
pub open spec fn s_exec_block_transfer(c: CpuSnap, m: MemSnap, instr: u32) -> (CpuSnap, MemSnap) {
    let pre = (instr >> 24u32) & 1 != 0;
    let up = (instr >> 23u32) & 1 != 0;
    let writeback = (instr >> 21u32) & 1 != 0;
    let load = (instr >> 20u32) & 1 != 0;
    let rn = ((instr >> 16u32) & 0xF) as int;
    let reg_list = instr & 0xFFFF;
    let count = s_bits_set(reg_list, 16) as u32;
    let base = c.regs[rn];
    let start_addr = if up {
        if pre {
            base.wrapping_add(4)
        } else {
            base
        }
    } else {
        if pre {
            base.wrapping_sub((count * 4) as u32)
        } else {
            base.wrapping_sub((count * 4) as u32).wrapping_add(4)
        }
    };
    let looped = s_block_loop(c, m, load, reg_list, start_addr, 0);
    let c1 = looped.0;
    let m1 = looped.1;
    let c2 = if writeback {
        s_with_reg(
            c1,
            rn,
            if up {
                base.wrapping_add((count * 4) as u32)
            } else {
                base.wrapping_sub((count * 4) as u32)
            },
        )
    } else {
        c1
    };
    let c3 = if load && (reg_list >> 15u32) & 1 != 0 {
        let new_pc = c2.regs[15];
        if new_pc & 1 != 0 {
            s_with_reg(s_set_flag(c2, CPSR_T, true), 15, new_pc & !1u32)
        } else {
            s_with_reg(c2, 15, new_pc & !3u32)
        }
    } else {
        c2
    };
    (s_add_cycles(c3, (count + if load { 2u32 } else { 1u32 }) as u64), m1)
}

/// Halfword and signed transfers (LDRH/STRH/LDRSB/LDRSH) with an 8-bit
/// immediate or register offset.
pub open spec fn s_exec_halfword_transfer(c: CpuSnap, m: MemSnap, instr: u32) -> (CpuSnap, MemSnap) {
    let pre = (instr >> 24u32) & 1 != 0;
    let up = (instr >> 23u32) & 1 != 0;
    let imm_offset = (instr >> 22u32) & 1 != 0;
    let writeback = (instr >> 21u32) & 1 != 0;
    let load = (instr >> 20u32) & 1 != 0;
    let rn = ((instr >> 16u32) & 0xF) as int;
    let rd = ((instr >> 12u32) & 0xF) as int;
    let sh = (instr >> 5u32) & 0x3;
    let base = c.regs[rn];
    let offset = if imm_offset {
        ((instr >> 4u32) & 0xF0) | (instr & 0xF)
    } else {
        c.regs[(instr & 0xF) as int]
    };
    let addr = if pre {
        if up {
            base.wrapping_add(offset)
        } else {
            base.wrapping_sub(offset)
        }
    } else {
        base
    };
    let cm1 = if load {
        let val = if sh == 1 {
            s_mem_read16(m, addr & !1u32) as u32
        } else if sh == 2 {
            s_sext8(s_mem_read8(m, addr) as u32)
        } else if sh == 3 {
            s_sext16(s_mem_read16(m, addr & !1u32) as u32)
        } else {
            0u32
        };
        (s_with_reg(c, rd, val), m)
    } else {
        if sh == 1 {
            (c, s_mem_write16(m, addr & !1u32, c.regs[rd] as u16))
        } else {
            (c, m)
        }
    };
    let c_wb = if !pre {
        let final_addr = if up {
            base.wrapping_add(offset)
        } else {
            base.wrapping_sub(offset)
        };
        s_with_reg(cm1.0, rn, final_addr)
    } else if writeback {
        s_with_reg(cm1.0, rn, addr)
    } else {
        cm1.0
    };
    (s_add_cycles(c_wb, if load { 3 } else { 2 }), cm1.1)
}

/// 32x32→32 multiply with optional accumulate and flag update.
pub open spec fn s_exec_multiply(c: CpuSnap, instr: u32) -> CpuSnap {
    let accumulate = (instr >> 21u32) & 1 != 0;
    let set_flags = (instr >> 20u32) & 1 != 0;
    let rd = ((instr >> 16u32) & 0xF) as int;
    let rn = ((instr >> 12u32) & 0xF) as int;
    let rs = ((instr >> 8u32) & 0xF) as int;
    let rm = (instr & 0xF) as int;
    let product = c.regs[rm].wrapping_mul(c.regs[rs]);
    let result = if accumulate {
        product.wrapping_add(c.regs[rn])
    } else {
        product
    };
    let c1 = s_with_reg(c, rd, result);
    let c2 = if set_flags {
        s_set_nz(c1, result)
    } else {
        c1
    };
    s_add_cycles(c2, 4)
}

/// 32x32→64 multiply, signed or unsigned, with optional accumulate and flag
/// update.
pub open spec fn s_exec_multiply_long(c: CpuSnap, instr: u32) -> CpuSnap {
    let is_signed = (instr >> 22u32) & 1 != 0;
    let accumulate = (instr >> 21u32) & 1 != 0;
    let set_flags = (instr >> 20u32) & 1 != 0;
    let rdhi = ((instr >> 16u32) & 0xF) as int;
    let rdlo = ((instr >> 12u32) & 0xF) as int;
    let rs = ((instr >> 8u32) & 0xF) as int;
    let rm = (instr & 0xF) as int;
    let product: u64 = if is_signed {
        s_sext64(c.regs[rm]).wrapping_mul(s_sext64(c.regs[rs]))
    } else {
        (c.regs[rm] as u64).wrapping_mul(c.regs[rs] as u64)
    };
    let result: u64 = if accumulate {
        product.wrapping_add(((c.regs[rdhi] as u64) << 32u64) | (c.regs[rdlo] as u64))
    } else {
        product
    };
    let c1 = s_with_reg(c, rdlo, result as u32);
    let c2 = s_with_reg(c1, rdhi, (result >> 32u64) as u32);
    let c3 = if set_flags {
        let c2f = s_set_nz(c2, c2.regs[rdhi]);
        if result == 0 {
            CpuSnap { cpsr: c2f.cpsr | CPSR_Z, ..c2f }
        } else {
            c2f
        }
    } else {
        c2
    };
    s_add_cycles(c3, 5)
}

/// MRS: read the CPSR or the current mode's SPSR into a register.
pub open spec fn s_exec_mrs(c: CpuSnap, instr: u32) -> CpuSnap {
    let rd = ((instr >> 12u32) & 0xF) as int;
    let use_spsr = (instr >> 22u32) & 1 != 0;
    let val = if use_spsr {
        s_get_spsr(c)
    } else {
        c.cpsr
    };
    s_add_cycles(s_with_reg(c, rd, val), 1)
}

/// The byte-lane mask an MSR writes, from its field nibble.
pub open spec fn s_msr_field_mask(instr: u32) -> u32 {
    let m0: u32 = 0;
    let m1 = if instr & (1u32 << 19u32) != 0 {
        m0 | 0xFF00_0000u32
    } else {
        m0
    };
    let m2 = if instr & (1u32 << 18u32) != 0 {
        m1 | 0x00FF_0000u32
    } else {
        m1
    };
    let m3 = if instr & (1u32 << 17u32) != 0 {
        m2 | 0x0000_FF00u32
    } else {
        m2
    };
    if instr & (1u32 << 16u32) != 0 {
        m3 | 0x0000_00FFu32
    } else {
        m3
    }
}

/// MSR with the operand already computed.
pub open spec fn s_msr_apply(c: CpuSnap, instr: u32, val: u32) -> CpuSnap {
    let use_spsr = (instr >> 22u32) & 1 != 0;
    let mask = s_msr_field_mask(instr);
    let c1 = if use_spsr {
        s_set_spsr(c, (s_get_spsr(c) & !mask) | (val & mask))
    } else {
        CpuSnap { cpsr: (c.cpsr & !mask) | (val & mask), ..c }
    };
    s_add_cycles(c1, 1)
}

pub open spec fn s_exec_msr_reg(c: CpuSnap, instr: u32) -> CpuSnap {
    s_msr_apply(c, instr, c.regs[(instr & 0xF) as int])
}

pub open spec fn s_exec_msr_imm(c: CpuSnap, instr: u32) -> CpuSnap {
    let imm = instr & 0xFF;
    let rot = ((instr >> 8u32) & 0xF) * 2;
    s_msr_apply(c, instr, s_rotr32(imm, rot as u32))
}

/// Count leading zeros (32 for a zero input).
pub open spec fn s_exec_clz(c: CpuSnap, instr: u32) -> CpuSnap {
    let rd = ((instr >> 12u32) & 0xF) as int;
    let rm = (instr & 0xF) as int;
    let val = if c.regs[rm] == 0 {
        32u32
    } else {
        vstd::std_specs::bits::u32_leading_zeros(c.regs[rm])
    };
    s_add_cycles(s_with_reg(c, rd, val), 1)
}

/// MRC/MCR: coprocessor 15 register transfers; other coprocessors are
/// no-ops.
pub open spec fn s_exec_cp_reg_transfer(c: CpuSnap, instr: u32) -> CpuSnap {
    let cp_num = (instr >> 8u32) & 0xF;
    if cp_num != 15 {
        s_add_cycles(c, 1)
    } else {
        let is_mrc = (instr >> 20u32) & 1 != 0;
        let opc1 = (instr >> 21u32) & 0x7;
        let crn = (instr >> 16u32) & 0xF;
        let rd = ((instr >> 12u32) & 0xF) as int;
        let opc2 = (instr >> 5u32) & 0x7;
        let crm = instr & 0xF;
        let c1 = if is_mrc {
            s_with_reg(c, rd, s_cp15_read(c.cp15, crn, opc1, crm, opc2))
        } else {
            CpuSnap { cp15: s_cp15_write(c.cp15, crn, opc1, crm, opc2, c.regs[rd]), ..c }
        };
        s_add_cycles(c1, 1)
    }
}

/// SWP: atomic exchange of a register with memory, word or byte.
pub open spec fn s_exec_swp(c: CpuSnap, m: MemSnap, instr: u32) -> (CpuSnap, MemSnap) {
    let byte = (instr >> 22u32) & 1 != 0;
    let rn = ((instr >> 16u32) & 0xF) as int;
    let rd = ((instr >> 12u32) & 0xF) as int;
    let rm = (instr & 0xF) as int;
    let addr = c.regs[rn];
    if byte {
        let old_v = s_mem_read8(m, addr) as u32;
        let m1 = s_mem_write8(m, addr, c.regs[rm] as u8);
        (s_add_cycles(s_with_reg(c, rd, old_v), 4), m1)
    } else {
        let old_v = s_mem_read32(m, addr & !3u32);
        let m1 = s_mem_write32(m, addr & !3u32, c.regs[rm]);
        (s_add_cycles(s_with_reg(c, rd, old_v), 4), m1)
    }
}

/// LDREX: a plain aligned load in this HLE.
pub open spec fn s_exec_ldrex(c: CpuSnap, m: MemSnap, instr: u32) -> CpuSnap {
    let rn = ((instr >> 16u32) & 0xF) as int;
    let rd = ((instr >> 12u32) & 0xF) as int;
    let addr = c.regs[rn];
    s_add_cycles(s_with_reg(c, rd, s_mem_read32(m, addr & !3u32)), 3)
}

/// STREX: the store always succeeds (status register zero) in this HLE.
pub open spec fn s_exec_strex(c: CpuSnap, m: MemSnap, instr: u32) -> (CpuSnap, MemSnap) {
    let rn = ((instr >> 16u32) & 0xF) as int;
    let rd = ((instr >> 12u32) & 0xF) as int;
    let rm = (instr & 0xF) as int;
    let addr = c.regs[rn];
    let m1 = s_mem_write32(m, addr & !3u32, c.regs[rm]);
    (s_add_cycles(s_with_reg(c, rd, 0), 2), m1)
}

/// One decoded and executed ARM instruction.  A failed condition costs one
/// cycle and has no other effect; an undecodable instruction does the same.
pub open spec fn s_arm_execute(c: CpuSnap, m: MemSnap, instr: u32) -> (CpuSnap, MemSnap) {
    let cond = (instr >> 28u32) & 0xF;
    if !s_check_condition(c, cond) {
        (s_add_cycles(c, 1), m)
    } else {
        let bits_27_20 = (instr >> 20u32) & 0xFF;
        let bits_7_4 = (instr >> 4u32) & 0xF;
        if bits_27_20 >> 5u32 == 0b101 {
            (s_exec_branch(c, instr), m)
        } else if bits_27_20 == 0x12 && bits_7_4 == 0x1 {
            (s_exec_bx(c, instr), m)
        } else if bits_27_20 == 0x12 && bits_7_4 == 0x3 {
            (s_exec_blx_reg(c, instr), m)
        } else if bits_27_20 >> 4u32 == 0xF {
            (s_exec_svc(c, instr), m)
        } else if (bits_27_20 & 0xFC) == 0x00 && bits_7_4 == 0x09 {
            (s_exec_multiply(c, instr), m)
        } else if (bits_27_20 & 0xF8) == 0x08 && bits_7_4 == 0x09 {
            (s_exec_multiply_long(c, instr), m)
        } else if (bits_27_20 & 0xFB) == 0x10 && bits_7_4 == 0x09 {
            s_exec_swp(c, m, instr)
        } else if bits_27_20 == 0x19 && bits_7_4 == 0x9 {
            (s_exec_ldrex(c, m, instr), m)
        } else if bits_27_20 == 0x18 && (instr & 0xF0) == 0x90 {
            s_exec_strex(c, m, instr)
        } else if (bits_7_4 & 0x9) == 0x9 && (bits_27_20 & 0xE0) == 0x00 && ((bits_7_4 & 0x6) != 0) {
            s_exec_halfword_transfer(c, m, instr)
        } else if bits_27_20 == 0x10 && (instr & 0x0FFF_0FFF) == (instr & 0x0FFF_0000) {
            (s_exec_mrs(c, instr), m)
        } else if (bits_27_20 & 0xFB) == 0x12 && (instr & 0xF0) == 0x00 {
            (s_exec_msr_reg(c, instr), m)
        } else if (bits_27_20 & 0xFB) == 0x32 {
            (s_exec_msr_imm(c, instr), m)
        } else if bits_27_20 == 0x16 && bits_7_4 == 0x1 {
            (s_exec_clz(c, instr), m)
        } else if bits_27_20 >> 5u32 == 0b001 {
            (s_exec_data_processing(c, instr, true), m)
        } else if bits_27_20 >> 5u32 == 0b000 && (bits_7_4 & 0x1) == 0 {
            (s_exec_data_processing(c, instr, false), m)
        } else if bits_27_20 >> 5u32 == 0b010 {
            s_exec_single_transfer(c, m, instr)
        } else if bits_27_20 >> 5u32 == 0b011 && (bits_7_4 & 0x1) == 0 {
            s_exec_single_transfer(c, m, instr)
        } else if bits_27_20 >> 5u32 == 0b100 {
            s_exec_block_transfer(c, m, instr)
        } else if bits_27_20 >> 4u32 == 0xE && (bits_7_4 & 0x1) == 1 {
            (s_exec_cp_reg_transfer(c, instr), m)
        } else if bits_27_20 >> 5u32 == 0b000 {
            (s_exec_data_processing(c, instr, false), m)
        } else {
            (s_add_cycles(c, 1), m)
        }
    }
}

/// Barrel-shifter tie-break: a register operand with LSR and immediate
/// amount 0 is LSR#32 — the result is zero and the carry-out is the
/// operand's bit 31.
pub proof fn lemma_barrel_lsr_imm0(c: CpuSnap, instr: u32)
    requires
        (instr >> 4u32) & 1 == 0,
        (instr >> 5u32) & 0x3 == 1,
        (instr >> 7u32) & 0x1F == 0,
    ensures
        s_barrel_shifter(c, instr, false) == (0u32, c.regs[(instr & 0xF) as int] >> 31u32 != 0),
{
}

/// Barrel-shifter tie-break: ROR with immediate amount 0 is RRX — a one-bit
/// rotate right through the carry; the carry-out is the operand's bit 0.
pub proof fn lemma_barrel_ror_imm0_rrx(c: CpuSnap, instr: u32)
    requires
        (instr >> 4u32) & 1 == 0,
        (instr >> 5u32) & 0x3 == 3,
        (instr >> 7u32) & 0x1F == 0,
    ensures
        s_barrel_shifter(c, instr, false) == (
            (if s_flag_c(c) {
                1u32 << 31u32
            } else {
                0u32
            }) | (c.regs[(instr & 0xF) as int] >> 1u32),
            c.regs[(instr & 0xF) as int] & 1 != 0,
        ),
{
}

/// A block load that includes R15 switches to Thumb exactly when bit 0 of
/// the loaded value is set, and stays in ARM state when it is clear.
pub proof fn lemma_ldm_pc_interworks(c: CpuSnap, m: MemSnap, instr: u32)
    requires
        c.wf(),
        (instr >> 20u32) & 1 != 0,
        (instr & 0xFFFF) >> 15u32 & 1 != 0,
    ensures
        ({
            let reg_list = instr & 0xFFFF;
            let count = s_bits_set(reg_list, 16) as u32;
            let base = c.regs[((instr >> 16u32) & 0xF) as int];
            let pre = (instr >> 24u32) & 1 != 0;
            let up = (instr >> 23u32) & 1 != 0;
            let start_addr = if up {
                if pre {
                    base.wrapping_add(4)
                } else {
                    base
                }
            } else {
                if pre {
                    base.wrapping_sub((count * 4) as u32)
                } else {
                    base.wrapping_sub((count * 4) as u32).wrapping_add(4)
                }
            };
            let c1 = s_block_loop(c, m, true, reg_list, start_addr, 0).0;
            let c2 = if (instr >> 21u32) & 1 != 0 {
                s_with_reg(
                    c1,
                    ((instr >> 16u32) & 0xF) as int,
                    if up {
                        base.wrapping_add((count * 4) as u32)
                    } else {
                        base.wrapping_sub((count * 4) as u32)
                    },
                )
            } else {
                c1
            };
            let loaded = c2.regs[15];
            let post = s_exec_block_transfer(c, m, instr).0;
            &&& (loaded & 1 != 0) ==> s_in_thumb(post) && post.regs[15] == loaded & !1u32
            &&& (loaded & 1 == 0) ==> s_in_thumb(post) == s_in_thumb(c) && post.regs[15] == loaded
                & !3u32
        }),
{
    let reg_list = instr & 0xFFFF;
    let count = s_bits_set(reg_list, 16) as u32;
    let base = c.regs[((instr >> 16u32) & 0xF) as int];
    let pre = (instr >> 24u32) & 1 != 0;
    let up = (instr >> 23u32) & 1 != 0;
    let start_addr = if up {
        if pre {
            base.wrapping_add(4)
        } else {
            base
        }
    } else {
        if pre {
            base.wrapping_sub((count * 4) as u32)
        } else {
            base.wrapping_sub((count * 4) as u32).wrapping_add(4)
        }
    };
    lemma_block_loop_wf(c, m, true, reg_list, start_addr, 0);
    lemma_and_mask_le(instr >> 16u32, 0xF);
    assert(forall|x: u32| #![auto] (x | CPSR_T) & CPSR_T != 0) by (bit_vector);
    let c1 = s_block_loop(c, m, true, reg_list, start_addr, 0).0;
    assert(c1.wf());
    let c2 = if (instr >> 21u32) & 1 != 0 {
        s_with_reg(
            c1,
            ((instr >> 16u32) & 0xF) as int,
            if up {
                base.wrapping_add((count * 4) as u32)
            } else {
                base.wrapping_sub((count * 4) as u32)
            },
        )
    } else {
        c1
    };
    assert(c2.regs.len() == 16);
    let loaded = c2.regs[15];
    let post = s_exec_block_transfer(c, m, instr).0;
    if loaded & 1 != 0 {
        assert(post == s_add_cycles(
            s_with_reg(s_set_flag(c2, CPSR_T, true), 15, loaded & !1u32),
            ((count + 2u32) as u64),
        ));
        assert(post.regs[15] == loaded & !1u32);
        assert(s_in_thumb(post));
    } else {
        assert(post == s_add_cycles(s_with_reg(c2, 15, loaded & !3u32), ((count + 2u32) as u64)));
        assert(post.regs[15] == loaded & !3u32);
    }
}

/// A failed condition consumes one cycle and changes nothing else: condition
/// NE with Z set leaves every register and all of memory as they were.
pub proof fn lemma_cond_ne_with_z_is_inert(c: CpuSnap, m: MemSnap, instr: u32)
    requires
        (instr >> 28u32) & 0xF == 0x1,
        s_flag_z(c),
    ensures
        s_arm_execute(c, m, instr) == (s_add_cycles(c, 1), m),
        s_arm_execute(c, m, instr).0.regs == c.regs,
{
}

/// A register number drawn from four instruction bits.
fn reg_idx(instr: u32, shift: u32) -> (i: usize)
    requires
        shift < 32,
    ensures
        i == ((instr >> shift) & 0xF) as usize,
        i < 16,
        shift == 0 ==> i == (instr & 0xF) as usize,
{
    let v = (instr >> shift) & 0xF;
    proof {
        lemma_and_mask_le(instr >> shift, 0xF);
        if shift == 0 {
            assert(instr >> 0u32 == instr) by (bit_vector);
        }
    }
    v as usize
}

fn exec_branch(cpu: &mut Cpu, instr: u32)
    requires
        old(cpu)@.wf(),
    ensures
        final(cpu)@ == s_exec_branch(old(cpu)@, instr),
        final(cpu)@.wf(),
{
    let link = (instr >> 24) & 1 != 0;
    let offset = asr32((instr & 0x00FF_FFFF) << 8, 6);
    if link {
        let lr = cpu.pc().wrapping_sub(4);
        cpu.regs[14] = lr;
    }
    let target = cpu.pc().wrapping_add(offset);
    cpu.set_pc(target);
    cpu.add_cycles(3);
    proof {
        assert(cpu@ =~= s_exec_branch(old(cpu)@, instr));
    }
}

fn exec_bx(cpu: &mut Cpu, instr: u32)
    requires
        old(cpu)@.wf(),
    ensures
        final(cpu)@ == s_exec_bx(old(cpu)@, instr),
        final(cpu)@.wf(),
{
    let rm = reg_idx(instr, 0);
    let addr = cpu.regs[rm];
    if addr & 1 != 0 {
        cpu.set_flag(CPSR_T, true);
        cpu.set_pc(addr & !1);
    } else {
        cpu.set_flag(CPSR_T, false);
        cpu.set_pc(addr & !3);
    }
    cpu.add_cycles(3);
    proof {
        assert(cpu@ =~= s_exec_bx(old(cpu)@, instr));
    }
}

fn exec_blx_reg(cpu: &mut Cpu, instr: u32)
    requires
        old(cpu)@.wf(),
    ensures
        final(cpu)@ == s_exec_blx_reg(old(cpu)@, instr),
        final(cpu)@.wf(),
{
    let lr = cpu.pc().wrapping_sub(4);
    cpu.regs[14] = lr;
    proof {
        assert(cpu@ =~= s_with_reg(old(cpu)@, 14, old(cpu)@.regs[15].wrapping_sub(4)));
    }
    exec_bx(cpu, instr);
}

fn exec_svc(cpu: &mut Cpu, instr: u32)
    requires
        old(cpu)@.wf(),
    ensures
        final(cpu)@ == s_exec_svc(old(cpu)@, instr),
        final(cpu)@.wf(),
{
    let comment = instr & 0x00FF_FFFF;
    let return_addr = cpu.pc().wrapping_sub(4);
    let old_cpsr = cpu.cpsr;
    cpu.switch_mode(MODE_SVC);
    cpu.set_spsr(old_cpsr);
    cpu.regs[14] = return_addr;
    cpu.cpsr = cpu.cpsr | CPSR_I;
    cpu.svc_pending = Some(comment);
    cpu.add_cycles(3);
    proof {
        assert(cpu@ =~= s_exec_svc(old(cpu)@, instr));
    }
}

fn barrel_shifter(cpu: &Cpu, instr: u32, is_imm: bool) -> (r: (u32, bool))
    requires
        cpu@.wf(),
    ensures
        r == s_barrel_shifter(cpu@, instr, is_imm),
{
    let carry = cpu.flag_c();

    if is_imm {
        let imm = instr & 0xFF;
        proof {
            lemma_and_mask_le(instr >> 8u32, 0xF);
        }
        let rot = ((instr >> 8) & 0xF) * 2;
        if rot == 0 {
            return (imm, carry);
        }
        let result = rotr32(imm, rot);
        let c = result >> 31 != 0;
        return (result, c);
    }

    let rm = reg_idx(instr, 0);
    let val = cpu.regs[rm];
    let shift_type = (instr >> 5) & 0x3;
    let shift_by_reg = (instr >> 4) & 1 != 0;

    let amount = if shift_by_reg {
        let rs = reg_idx(instr, 8);
        cpu.regs[rs] & 0xFF
    } else {
        (instr >> 7) & 0x1F
    };
    proof {
        lemma_and_mask_le(instr >> 7u32, 0x1F);
        lemma_and_mask_le(amount, 31);
    }

    if amount == 0 && !shift_by_reg {
        if shift_type == 0 {
            (val, carry)
        } else if shift_type == 1 {
            (0, val >> 31 != 0)
        } else if shift_type == 2 {
            let bit31 = val >> 31 != 0;
            (if bit31 { 0xFFFF_FFFF } else { 0 }, bit31)
        } else {
            let result = (if carry { 1u32 << 31 } else { 0 }) | (val >> 1);
            (result, val & 1 != 0)
        }
    } else if amount == 0 {
        (val, carry)
    } else if shift_type == 0 {
        if amount >= 32 {
            (0, if amount == 32 { val & 1 != 0 } else { false })
        } else {
            (val << amount, (val >> (32 - amount)) & 1 != 0)
        }
    } else if shift_type == 1 {
        if amount >= 32 {
            (0, if amount == 32 { val >> 31 != 0 } else { false })
        } else {
            (val >> amount, (val >> (amount - 1)) & 1 != 0)
        }
    } else if shift_type == 2 {
        if amount >= 32 {
            let bit31 = val >> 31 != 0;
            (if bit31 { 0xFFFF_FFFF } else { 0 }, bit31)
        } else {
            (asr32(val, amount), (val >> (amount - 1)) & 1 != 0)
        }
    } else {
        let effective = amount & 31;
        if effective == 0 {
            (val, val >> 31 != 0)
        } else {
            (rotr32(val, effective), (val >> (effective - 1)) & 1 != 0)
        }
    }
}

fn exec_data_processing(cpu: &mut Cpu, instr: u32, is_imm: bool)
    requires
        old(cpu)@.wf(),
    ensures
        final(cpu)@ == s_exec_data_processing(old(cpu)@, instr, is_imm),
        final(cpu)@.wf(),
{
    let opcode = (instr >> 21) & 0xF;
    let set_flags = (instr >> 20) & 1 != 0;
    let rn = reg_idx(instr, 16);
    let rd = reg_idx(instr, 12);

    let op1 = cpu.regs[rn];
    let (op2, shifter_carry) = barrel_shifter(cpu, instr, is_imm);

    let cin: u32 = if cpu.flag_c() { 1 } else { 0 };
    let (result, write_rd): (u32, bool) = if opcode == 0x0 {
        (op1 & op2, true)
    } else if opcode == 0x1 {
        (op1 ^ op2, true)
    } else if opcode == 0x2 {
        (op1.wrapping_sub(op2), true)
    } else if opcode == 0x3 {
        (op2.wrapping_sub(op1), true)
    } else if opcode == 0x4 {
        (op1.wrapping_add(op2), true)
    } else if opcode == 0x5 {
        (op1.wrapping_add(op2).wrapping_add(cin), true)
    } else if opcode == 0x6 {
        (op1.wrapping_sub(op2).wrapping_sub(1 - cin), true)
    } else if opcode == 0x7 {
        (op2.wrapping_sub(op1).wrapping_sub(1 - cin), true)
    } else if opcode == 0x8 {
        (op1 & op2, false)
    } else if opcode == 0x9 {
        (op1 ^ op2, false)
    } else if opcode == 0xA {
        (op1.wrapping_sub(op2), false)
    } else if opcode == 0xB {
        (op1.wrapping_add(op2), false)
    } else if opcode == 0xC {
        (op1 | op2, true)
    } else if opcode == 0xD {
        (op2, true)
    } else if opcode == 0xE {
        (op1 & !op2, true)
    } else {
        (!op2, true)
    };
    proof {
        assert((result, write_rd) == s_alu_op(old(cpu)@, opcode, op1, op2));
    }

    if write_rd {
        cpu.regs[rd] = result;
        if rd == 15 {
            if set_flags {
                let spsr = cpu.get_spsr();
                cpu.cpsr = spsr;
            }
            if cpu.in_thumb_mode() {
                cpu.set_pc(result & !1);
            } else {
                cpu.set_pc(result & !3);
            }
            cpu.add_cycles(3);
            proof {
                assert(cpu@ =~= s_exec_data_processing(old(cpu)@, instr, is_imm));
            }
            return ;
        }
    }

    if set_flags {
        cpu.set_nz(result);
        if opcode == 0x2 || opcode == 0x3 || opcode == 0xA {
            let (a, b) = if opcode == 0x3 {
                (op2, op1)
            } else {
                (op1, op2)
            };
            cpu.set_flag(CPSR_C, a >= b);
            let sv = ((a ^ b) & (a ^ result)) >> 31 != 0;
            cpu.set_flag(CPSR_V, sv);
        } else if opcode == 0x4 || opcode == 0x5 || opcode == 0xB {
            let carry_out = (result < op1) || (opcode == 0x5 && cpu.flag_c() && result == op1);
            cpu.set_flag(CPSR_C, carry_out);
            let sv = (!(op1 ^ op2) & (op1 ^ result)) >> 31 != 0;
            cpu.set_flag(CPSR_V, sv);
        } else if opcode == 0x6 || opcode == 0x7 {
        } else {
            cpu.set_flag(CPSR_C, shifter_carry);
        }
    }

    cpu.add_cycles(1);
    proof {
        assert(cpu@ =~= s_exec_data_processing(old(cpu)@, instr, is_imm));
    }
}

fn exec_single_transfer(cpu: &mut Cpu, mem: &mut Memory, instr: u32)
    requires
        old(cpu)@.wf(),
        old(mem)@.wf(),
    ensures
        final(cpu)@ == s_exec_single_transfer(old(cpu)@, old(mem)@, instr).0,
        final(mem)@ == s_exec_single_transfer(old(cpu)@, old(mem)@, instr).1,
        final(cpu)@.wf(),
        final(mem)@.wf(),
{
    let is_reg = (instr >> 25) & 1 != 0;
    let pre = (instr >> 24) & 1 != 0;
    let up = (instr >> 23) & 1 != 0;
    let byte = (instr >> 22) & 1 != 0;
    let writeback = (instr >> 21) & 1 != 0;
    let load = (instr >> 20) & 1 != 0;
    let rn = reg_idx(instr, 16);
    let rd = reg_idx(instr, 12);

    let base = cpu.regs[rn];

    let offset = if is_reg {
        let rm = reg_idx(instr, 0);
        let shift_type = (instr >> 5) & 0x3;
        let shift_amount = (instr >> 7) & 0x1F;
        proof {
            lemma_and_mask_le(instr >> 7u32, 0x1F);
        }
        let rm_val = cpu.regs[rm];
        if shift_type == 0 {
            rm_val << shift_amount
        } else if shift_type == 1 {
            if shift_amount == 0 {
                0
            } else {
                rm_val >> shift_amount
            }
        } else if shift_type == 2 {
            if shift_amount == 0 {
                if rm_val >> 31 != 0 {
                    0xFFFF_FFFF
                } else {
                    0
                }
            } else {
                asr32(rm_val, shift_amount)
            }
        } else {
            if shift_amount == 0 {
                let cbit = if cpu.flag_c() { 1u32 << 31 } else { 0 };
                cbit | (rm_val >> 1)
            } else {
                rotr32(rm_val, shift_amount)
            }
        }
    } else {
        instr & 0xFFF
    };
    proof {
        assert(offset == s_single_transfer_offset(old(cpu)@, instr));
    }

    let addr = if pre {
        if up {
            base.wrapping_add(offset)
        } else {
            base.wrapping_sub(offset)
        }
    } else {
        base
    };

    if load {
        let raw = if byte {
            mem.read8(addr) as u32
        } else {
            mem.read32(addr & !3)
        };
        let val = if !byte && (addr & 3) != 0 {
            proof {
                lemma_and_mask_le(addr, 3);
            }
            rotr32(raw, (addr & 3) * 8)
        } else {
            raw
        };
        cpu.regs[rd] = val;
        if rd == 15 {
            let p = cpu.regs[15];
            cpu.set_pc(p & !3);
        }
    } else {
        let val = if rd == 15 {
            cpu.pc().wrapping_add(4)
        } else {
            cpu.regs[rd]
        };
        if byte {
            mem.write8(addr, val as u8);
        } else {
            mem.write32(addr & !3, val);
        }
    }

    if !pre {
        let final_addr = if up {
            base.wrapping_add(offset)
        } else {
            base.wrapping_sub(offset)
        };
        cpu.regs[rn] = final_addr;
    } else if writeback {
        cpu.regs[rn] = addr;
    }

    cpu.add_cycles(if load { 3 } else { 2 });
    proof {
        assert(cpu@ =~= s_exec_single_transfer(old(cpu)@, old(mem)@, instr).0);
        assert(mem@ =~= s_exec_single_transfer(old(cpu)@, old(mem)@, instr).1);
    }
}

fn exec_block_transfer(cpu: &mut Cpu, mem: &mut Memory, instr: u32)
    requires
        old(cpu)@.wf(),
        old(mem)@.wf(),
    ensures
        final(cpu)@ == s_exec_block_transfer(old(cpu)@, old(mem)@, instr).0,
        final(mem)@ == s_exec_block_transfer(old(cpu)@, old(mem)@, instr).1,
        final(cpu)@.wf(),
        final(mem)@.wf(),
{
    let pre = (instr >> 24) & 1 != 0;
    let up = (instr >> 23) & 1 != 0;
    let writeback = (instr >> 21) & 1 != 0;
    let load = (instr >> 20) & 1 != 0;
    let rn = reg_idx(instr, 16);
    let reg_list = instr & 0xFFFF;

    let count = count_bits16(reg_list);
    let base = cpu.regs[rn];

    let start_addr = if up {
        if pre {
            base.wrapping_add(4)
        } else {
            base
        }
    } else {
        if pre {
            base.wrapping_sub(count * 4)
        } else {
            base.wrapping_sub(count * 4).wrapping_add(4)
        }
    };

    let ghost c0 = cpu@;
    let ghost m0 = mem@;
    let mut addr = start_addr;
    let mut i: u32 = 0;
    while i < 16
        invariant
            i <= 16,
            cpu@.wf(),
            mem@.wf(),
            s_block_loop(c0, m0, load, reg_list, start_addr, 0) == s_block_loop(
                cpu@,
                mem@,
                load,
                reg_list,
                addr,
                i as nat,
            ),
        decreases 16 - i,
    {
        if (reg_list >> i) & 1 != 0 {
            if load {
                let v = mem.read32(addr);
                cpu.regs[i as usize] = v;
            } else {
                let val = cpu.regs[i as usize];
                mem.write32(addr, val);
            }
            addr = addr.wrapping_add(4);
        }
        i = i + 1;
    }

    if writeback {
        let nb = if up {
            base.wrapping_add(count * 4)
        } else {
            base.wrapping_sub(count * 4)
        };
        cpu.regs[rn] = nb;
    }

    if load && (reg_list >> 15) & 1 != 0 {
        let new_pc = cpu.regs[15];
        if new_pc & 1 != 0 {
            cpu.set_flag(CPSR_T, true);
            cpu.set_pc(new_pc & !1);
        } else {
            cpu.set_pc(new_pc & !3);
        }
    }

    cpu.add_cycles((count + if load { 2 } else { 1 }) as u64);
    proof {
        assert(cpu@ =~= s_exec_block_transfer(old(cpu)@, old(mem)@, instr).0);
        assert(mem@ =~= s_exec_block_transfer(old(cpu)@, old(mem)@, instr).1);
    }
}

fn exec_halfword_transfer(cpu: &mut Cpu, mem: &mut Memory, instr: u32)
    requires
        old(cpu)@.wf(),
        old(mem)@.wf(),
    ensures
        final(cpu)@ == s_exec_halfword_transfer(old(cpu)@, old(mem)@, instr).0,
        final(mem)@ == s_exec_halfword_transfer(old(cpu)@, old(mem)@, instr).1,
        final(cpu)@.wf(),
        final(mem)@.wf(),
{
    let pre = (instr >> 24) & 1 != 0;
    let up = (instr >> 23) & 1 != 0;
    let imm_offset = (instr >> 22) & 1 != 0;
    let writeback = (instr >> 21) & 1 != 0;
    let load = (instr >> 20) & 1 != 0;
    let rn = reg_idx(instr, 16);
    let rd = reg_idx(instr, 12);
    let sh = (instr >> 5) & 0x3;

    let base = cpu.regs[rn];
    let offset = if imm_offset {
        ((instr >> 4) & 0xF0) | (instr & 0xF)
    } else {
        let rm = reg_idx(instr, 0);
        cpu.regs[rm]
    };

    let addr = if pre {
        if up {
            base.wrapping_add(offset)
        } else {
            base.wrapping_sub(offset)
        }
    } else {
        base
    };

    if load {
        let val = if sh == 1 {
            mem.read16(addr & !1) as u32
        } else if sh == 2 {
            sext8(mem.read8(addr) as u32)
        } else if sh == 3 {
            sext16(mem.read16(addr & !1) as u32)
        } else {
            0
        };
        cpu.regs[rd] = val;
    } else {
        if sh == 1 {
            let v = cpu.regs[rd];
            mem.write16(addr & !1, v as u16);
        }
    }

    if !pre {
        let final_addr = if up {
            base.wrapping_add(offset)
        } else {
            base.wrapping_sub(offset)
        };
        cpu.regs[rn] = final_addr;
    } else if writeback {
        cpu.regs[rn] = addr;
    }

    cpu.add_cycles(if load { 3 } else { 2 });
    proof {
        assert(cpu@ =~= s_exec_halfword_transfer(old(cpu)@, old(mem)@, instr).0);
        assert(mem@ =~= s_exec_halfword_transfer(old(cpu)@, old(mem)@, instr).1);
    }
}

fn exec_multiply(cpu: &mut Cpu, instr: u32)
    requires
        old(cpu)@.wf(),
    ensures
        final(cpu)@ == s_exec_multiply(old(cpu)@, instr),
        final(cpu)@.wf(),
{
    let accumulate = (instr >> 21) & 1 != 0;
    let set_flags = (instr >> 20) & 1 != 0;
    let rd = reg_idx(instr, 16);
    let rn = reg_idx(instr, 12);
    let rs = reg_idx(instr, 8);
    let rm = reg_idx(instr, 0);

    let product = cpu.regs[rm].wrapping_mul(cpu.regs[rs]);
    let result = if accumulate {
        product.wrapping_add(cpu.regs[rn])
    } else {
        product
    };
    cpu.regs[rd] = result;

    if set_flags {
        cpu.set_nz(result);
    }
    cpu.add_cycles(4);
    proof {
        assert(cpu@ =~= s_exec_multiply(old(cpu)@, instr));
    }
}

fn exec_multiply_long(cpu: &mut Cpu, instr: u32)
    requires
        old(cpu)@.wf(),
    ensures
        final(cpu)@ == s_exec_multiply_long(old(cpu)@, instr),
        final(cpu)@.wf(),
{
    let is_signed = (instr >> 22) & 1 != 0;
    let accumulate = (instr >> 21) & 1 != 0;
    let set_flags = (instr >> 20) & 1 != 0;
    let rdhi = reg_idx(instr, 16);
    let rdlo = reg_idx(instr, 12);
    let rs = reg_idx(instr, 8);
    let rm = reg_idx(instr, 0);

    let product: u64 = if is_signed {
        sext64(cpu.regs[rm]).wrapping_mul(sext64(cpu.regs[rs]))
    } else {
        (cpu.regs[rm] as u64).wrapping_mul(cpu.regs[rs] as u64)
    };

    let result = if accumulate {
        let acc = ((cpu.regs[rdhi] as u64) << 32) | (cpu.regs[rdlo] as u64);
        product.wrapping_add(acc)
    } else {
        product
    };

    cpu.regs[rdlo] = result as u32;
    cpu.regs[rdhi] = (result >> 32) as u32;

    if set_flags {
        let hi = cpu.regs[rdhi];
        cpu.set_nz(hi);
        if result == 0 {
            cpu.cpsr = cpu.cpsr | CPSR_Z;
        }
    }
    cpu.add_cycles(5);
    proof {
        assert(cpu@ =~= s_exec_multiply_long(old(cpu)@, instr));
    }
}

fn exec_mrs(cpu: &mut Cpu, instr: u32)
    requires
        old(cpu)@.wf(),
    ensures
        final(cpu)@ == s_exec_mrs(old(cpu)@, instr),
        final(cpu)@.wf(),
{
    let rd = reg_idx(instr, 12);
    let use_spsr = (instr >> 22) & 1 != 0;
    let val = if use_spsr {
        cpu.get_spsr()
    } else {
        cpu.cpsr
    };
    cpu.regs[rd] = val;
    cpu.add_cycles(1);
    proof {
        assert(cpu@ =~= s_exec_mrs(old(cpu)@, instr));
    }
}

fn msr_field_mask(instr: u32) -> (mask: u32)
    ensures
        mask == s_msr_field_mask(instr),
{
    let mut mask: u32 = 0;
    if instr & (1 << 19) != 0 {
        mask = mask | 0xFF00_0000;
    }
    if instr & (1 << 18) != 0 {
        mask = mask | 0x00FF_0000;
    }
    if instr & (1 << 17) != 0 {
        mask = mask | 0x0000_FF00;
    }
    if instr & (1 << 16) != 0 {
        mask = mask | 0x0000_00FF;
    }
    mask
}

fn msr_apply(cpu: &mut Cpu, instr: u32, val: u32)
    requires
        old(cpu)@.wf(),
    ensures
        final(cpu)@ == s_msr_apply(old(cpu)@, instr, val),
        final(cpu)@.wf(),
{
    let use_spsr = (instr >> 22) & 1 != 0;
    let mask = msr_field_mask(instr);
    if use_spsr {
        let old_spsr = cpu.get_spsr();
        cpu.set_spsr((old_spsr & !mask) | (val & mask));
    } else {
        cpu.cpsr = (cpu.cpsr & !mask) | (val & mask);
    }
    cpu.add_cycles(1);
    proof {
        assert(cpu@ =~= s_msr_apply(old(cpu)@, instr, val));
    }
}

fn exec_msr_reg(cpu: &mut Cpu, instr: u32)
    requires
        old(cpu)@.wf(),
    ensures
        final(cpu)@ == s_exec_msr_reg(old(cpu)@, instr),
        final(cpu)@.wf(),
{
    let rm = reg_idx(instr, 0);
    let val = cpu.regs[rm];
    msr_apply(cpu, instr, val);
}

fn exec_msr_imm(cpu: &mut Cpu, instr: u32)
    requires
        old(cpu)@.wf(),
    ensures
        final(cpu)@ == s_exec_msr_imm(old(cpu)@, instr),
        final(cpu)@.wf(),
{
    let imm = instr & 0xFF;
    proof {
        lemma_and_mask_le(instr >> 8u32, 0xF);
    }
    let rot = ((instr >> 8) & 0xF) * 2;
    let val = rotr32(imm, rot);
    msr_apply(cpu, instr, val);
}

fn exec_clz(cpu: &mut Cpu, instr: u32)
    requires
        old(cpu)@.wf(),
    ensures
        final(cpu)@ == s_exec_clz(old(cpu)@, instr),
        final(cpu)@.wf(),
{
    let rd = reg_idx(instr, 12);
    let rm = reg_idx(instr, 0);
    let v = cpu.regs[rm];
    let val = if v == 0 {
        32
    } else {
        v.leading_zeros()
    };
    cpu.regs[rd] = val;
    cpu.add_cycles(1);
    proof {
        assert(cpu@ =~= s_exec_clz(old(cpu)@, instr));
    }
}

fn exec_cp_reg_transfer(cpu: &mut Cpu, instr: u32)
    requires
        old(cpu)@.wf(),
    ensures
        final(cpu)@ == s_exec_cp_reg_transfer(old(cpu)@, instr),
        final(cpu)@.wf(),
{
    let cp_num = (instr >> 8) & 0xF;
    if cp_num != 15 {
        cpu.add_cycles(1);
        proof {
            assert(cpu@ =~= s_exec_cp_reg_transfer(old(cpu)@, instr));
        }
        return ;
    }
    let is_mrc = (instr >> 20) & 1 != 0;
    let opc1 = (instr >> 21) & 0x7;
    let crn = (instr >> 16) & 0xF;
    let rd = reg_idx(instr, 12);
    let opc2 = (instr >> 5) & 0x7;
    let crm = instr & 0xF;

    if is_mrc {
        let v = cpu.cp15.read(crn, opc1, crm, opc2);
        cpu.regs[rd] = v;
    } else {
        let val = cpu.regs[rd];
        cpu.cp15.write(crn, opc1, crm, opc2, val);
    }
    cpu.add_cycles(1);
    proof {
        assert(cpu@ =~= s_exec_cp_reg_transfer(old(cpu)@, instr));
    }
}

fn exec_swp(cpu: &mut Cpu, mem: &mut Memory, instr: u32)
    requires
        old(cpu)@.wf(),
        old(mem)@.wf(),
    ensures
        final(cpu)@ == s_exec_swp(old(cpu)@, old(mem)@, instr).0,
        final(mem)@ == s_exec_swp(old(cpu)@, old(mem)@, instr).1,
        final(cpu)@.wf(),
        final(mem)@.wf(),
{
    let byte = (instr >> 22) & 1 != 0;
    let rn = reg_idx(instr, 16);
    let rd = reg_idx(instr, 12);
    let rm = reg_idx(instr, 0);
    let addr = cpu.regs[rn];

    if byte {
        let old_v = mem.read8(addr) as u32;
        let nv = cpu.regs[rm];
        mem.write8(addr, nv as u8);
        cpu.regs[rd] = old_v;
    } else {
        let old_v = mem.read32(addr & !3);
        let nv = cpu.regs[rm];
        mem.write32(addr & !3, nv);
        cpu.regs[rd] = old_v;
    }
    cpu.add_cycles(4);
    proof {
        assert(cpu@ =~= s_exec_swp(old(cpu)@, old(mem)@, instr).0);
        assert(mem@ =~= s_exec_swp(old(cpu)@, old(mem)@, instr).1);
    }
}

fn exec_ldrex(cpu: &mut Cpu, mem: &mut Memory, instr: u32)
    requires
        old(cpu)@.wf(),
        old(mem)@.wf(),
    ensures
        final(cpu)@ == s_exec_ldrex(old(cpu)@, old(mem)@, instr),
        final(mem)@ == old(mem)@,
        final(cpu)@.wf(),
        final(mem)@.wf(),
{
    let rn = reg_idx(instr, 16);
    let rd = reg_idx(instr, 12);
    let addr = cpu.regs[rn];
    let v = mem.read32(addr & !3);
    cpu.regs[rd] = v;
    cpu.add_cycles(3);
    proof {
        assert(cpu@ =~= s_exec_ldrex(old(cpu)@, old(mem)@, instr));
    }
}

fn exec_strex(cpu: &mut Cpu, mem: &mut Memory, instr: u32)
    requires
        old(cpu)@.wf(),
        old(mem)@.wf(),
    ensures
        final(cpu)@ == s_exec_strex(old(cpu)@, old(mem)@, instr).0,
        final(mem)@ == s_exec_strex(old(cpu)@, old(mem)@, instr).1,
        final(cpu)@.wf(),
        final(mem)@.wf(),
{
    let rn = reg_idx(instr, 16);
    let rd = reg_idx(instr, 12);
    let rm = reg_idx(instr, 0);
    let addr = cpu.regs[rn];
    let v = cpu.regs[rm];
    mem.write32(addr & !3, v);
    cpu.regs[rd] = 0;
    cpu.add_cycles(2);
    proof {
        assert(cpu@ =~= s_exec_strex(old(cpu)@, old(mem)@, instr).0);
        assert(mem@ =~= s_exec_strex(old(cpu)@, old(mem)@, instr).1);
    }
}

/// Decode and execute one ARM instruction against the CPU and memory.
pub fn execute(cpu: &mut Cpu, mem: &mut Memory, instr: u32)
    requires
        old(cpu)@.wf(),
        old(mem)@.wf(),
    ensures
        final(cpu)@ == s_arm_execute(old(cpu)@, old(mem)@, instr).0,
        final(mem)@ == s_arm_execute(old(cpu)@, old(mem)@, instr).1,
        final(cpu)@.wf(),
        final(mem)@.wf(),
{
    let cond = (instr >> 28) & 0xF;
    if !cpu.check_condition(cond) {
        cpu.add_cycles(1);
        return ;
    }

    let bits_27_20 = (instr >> 20) & 0xFF;
    let bits_7_4 = (instr >> 4) & 0xF;

    if bits_27_20 >> 5 == 0b101 {
        exec_branch(cpu, instr);
    } else if bits_27_20 == 0x12 && bits_7_4 == 0x1 {
        exec_bx(cpu, instr);
    } else if bits_27_20 == 0x12 && bits_7_4 == 0x3 {
        exec_blx_reg(cpu, instr);
    } else if bits_27_20 >> 4 == 0xF {
        exec_svc(cpu, instr);
    } else if (bits_27_20 & 0xFC) == 0x00 && bits_7_4 == 0x09 {
        exec_multiply(cpu, instr);
    } else if (bits_27_20 & 0xF8) == 0x08 && bits_7_4 == 0x09 {
        exec_multiply_long(cpu, instr);
    } else if (bits_27_20 & 0xFB) == 0x10 && bits_7_4 == 0x09 {
        exec_swp(cpu, mem, instr);
    } else if bits_27_20 == 0x19 && bits_7_4 == 0x9 {
        exec_ldrex(cpu, mem, instr);
    } else if bits_27_20 == 0x18 && (instr & 0xF0) == 0x90 {
        exec_strex(cpu, mem, instr);
    } else if (bits_7_4 & 0x9) == 0x9 && (bits_27_20 & 0xE0) == 0x00 && ((bits_7_4 & 0x6) != 0) {
        exec_halfword_transfer(cpu, mem, instr);
    } else if bits_27_20 == 0x10 && (instr & 0x0FFF_0FFF) == (instr & 0x0FFF_0000) {
        exec_mrs(cpu, instr);
    } else if (bits_27_20 & 0xFB) == 0x12 && (instr & 0xF0) == 0x00 {
        exec_msr_reg(cpu, instr);
    } else if (bits_27_20 & 0xFB) == 0x32 {
        exec_msr_imm(cpu, instr);
    } else if bits_27_20 == 0x16 && bits_7_4 == 0x1 {
        exec_clz(cpu, instr);
    } else if bits_27_20 >> 5 == 0b001 {
        exec_data_processing(cpu, instr, true);
    } else if bits_27_20 >> 5 == 0b000 && (bits_7_4 & 0x1) == 0 {
        exec_data_processing(cpu, instr, false);
    } else if bits_27_20 >> 5 == 0b010 {
        exec_single_transfer(cpu, mem, instr);
    } else if bits_27_20 >> 5 == 0b011 && (bits_7_4 & 0x1) == 0 {
        exec_single_transfer(cpu, mem, instr);
    } else if bits_27_20 >> 5 == 0b100 {
        exec_block_transfer(cpu, mem, instr);
    } else if bits_27_20 >> 4 == 0xE && (bits_7_4 & 0x1) == 1 {
        exec_cp_reg_transfer(cpu, instr);
    } else if bits_27_20 >> 5 == 0b000 {
        exec_data_processing(cpu, instr, false);
    } else {
        cpu.add_cycles(1);
    }
}

} // verus!
