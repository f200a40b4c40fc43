//! The ARM11 CPU state machine: sixteen general registers, CPSR with
//! per-mode SPSR slots, banked SP/LR and the FIQ high-register bank, a cycle
//! counter, and the pending-supervisor-call latch.
//!
//! Everything a CPU value does is specified against [`CpuSnap`], a
//! mathematical snapshot of the whole register state, so that instruction
//! semantics can be written as pure functions from snapshot to snapshot.

use vstd::prelude::*;

pub mod arm;
pub mod cp15;
pub mod thumb;

verus! {

use crate::cpu::cp15::Cp15;
use crate::cpu::cp15::s_cp15_new;

pub const MODE_USER: u32 = 0x10;

pub const MODE_FIQ: u32 = 0x11;

pub const MODE_IRQ: u32 = 0x12;

pub const MODE_SVC: u32 = 0x13;

pub const MODE_ABT: u32 = 0x17;

pub const MODE_UND: u32 = 0x1B;

pub const MODE_SYS: u32 = 0x1F;

pub const CPSR_N: u32 = 1u32 << 31;

pub const CPSR_Z: u32 = 1u32 << 30;

pub const CPSR_C: u32 = 1u32 << 29;

pub const CPSR_V: u32 = 1u32 << 28;

pub const CPSR_T: u32 = 1u32 << 5;

pub const CPSR_I: u32 = 1u32 << 7;

pub const CPSR_F: u32 = 1u32 << 6;

pub struct Cpu {
    pub regs: [u32; 16],
    pub cpsr: u32,
    pub spsr: [u32; 6],
    pub banked_regs: BankedRegs,
    pub cycles: u64,
    pub halted: bool,
    pub svc_pending: Option<u32>,
    pub cp15: Cp15,
}

pub struct BankedRegs {
    pub sp: [u32; 6],
    pub lr: [u32; 6],
    pub fiq_r8_r12: [u32; 5],
    pub usr_r8_r12: [u32; 5],
}

/// Mathematical snapshot of the complete CPU state.
#[verifier::ext_equal]
pub struct CpuSnap {
    pub regs: Seq<u32>,
    pub cpsr: u32,
    pub spsr: Seq<u32>,
    pub sp_bank: Seq<u32>,
    pub lr_bank: Seq<u32>,
    pub fiq_bank: Seq<u32>,
    pub usr_bank: Seq<u32>,
    pub cycles: u64,
    pub halted: bool,
    pub svc_pending: Option<u32>,
    pub cp15: Cp15,
}

impl View for Cpu {
    type V = CpuSnap;

    open spec fn view(&self) -> CpuSnap {
        CpuSnap {
            regs: self.regs@,
            cpsr: self.cpsr,
            spsr: self.spsr@,
            sp_bank: self.banked_regs.sp@,
            lr_bank: self.banked_regs.lr@,
            fiq_bank: self.banked_regs.fiq_r8_r12@,
            usr_bank: self.banked_regs.usr_r8_r12@,
            cycles: self.cycles,
            halted: self.halted,
            svc_pending: self.svc_pending,
            cp15: self.cp15,
        }
    }
}

impl CpuSnap {
    /// The snapshot a freshly constructed CPU satisfies: supervisor mode with
    /// interrupts masked, all registers clear but the program counter at the
    /// code base.
    pub open spec fn wf(self) -> bool {
        &&& self.regs.len() == 16
        &&& self.spsr.len() == 6
        &&& self.sp_bank.len() == 6
        &&& self.lr_bank.len() == 6
        &&& self.fiq_bank.len() == 5
        &&& self.usr_bank.len() == 5
    }
}

/// The reset state of the CPU.
pub open spec fn s_cpu_new() -> CpuSnap {
    CpuSnap {
        regs: Seq::new(16, |i: int| if i == 15 { 0x0010_0000u32 } else { 0u32 }),
        cpsr: MODE_SVC | CPSR_I | CPSR_F,
        spsr: Seq::new(6, |i: int| 0u32),
        sp_bank: Seq::new(6, |i: int| 0u32),
        lr_bank: Seq::new(6, |i: int| 0u32),
        fiq_bank: Seq::new(5, |i: int| 0u32),
        usr_bank: Seq::new(5, |i: int| 0u32),
        cycles: 0,
        halted: false,
        svc_pending: None,
        cp15: s_cp15_new(),
    }
}

/// Which bank slot a processor mode uses.  USER and SYS share slot 0, and an
/// unknown mode value falls back to slot 0 as well.
pub open spec fn s_mode_index(mode: u32) -> int {
    if mode == MODE_FIQ {
        1
    } else if mode == MODE_IRQ {
        2
    } else if mode == MODE_SVC {
        3
    } else if mode == MODE_ABT {
        4
    } else if mode == MODE_UND {
        5
    } else {
        0
    }
}

/// The mode field of a snapshot's CPSR.
pub open spec fn s_mode(c: CpuSnap) -> u32 {
    c.cpsr & 0x1F
}

pub open spec fn s_flag_n(c: CpuSnap) -> bool {
    c.cpsr & CPSR_N != 0
}

pub open spec fn s_flag_z(c: CpuSnap) -> bool {
    c.cpsr & CPSR_Z != 0
}

pub open spec fn s_flag_c(c: CpuSnap) -> bool {
    c.cpsr & CPSR_C != 0
}

pub open spec fn s_flag_v(c: CpuSnap) -> bool {
    c.cpsr & CPSR_V != 0
}

pub open spec fn s_in_thumb(c: CpuSnap) -> bool {
    c.cpsr & CPSR_T != 0
}

/// The standard ARM condition predicates over the four flags.  Codes `0xE`
/// (always) and the reserved `0xF` both execute unconditionally.
pub open spec fn s_check_condition(c: CpuSnap, cond: u32) -> bool {
    if cond == 0x0 {
        s_flag_z(c)
    } else if cond == 0x1 {
        !s_flag_z(c)
    } else if cond == 0x2 {
        s_flag_c(c)
    } else if cond == 0x3 {
        !s_flag_c(c)
    } else if cond == 0x4 {
        s_flag_n(c)
    } else if cond == 0x5 {
        !s_flag_n(c)
    } else if cond == 0x6 {
        s_flag_v(c)
    } else if cond == 0x7 {
        !s_flag_v(c)
    } else if cond == 0x8 {
        s_flag_c(c) && !s_flag_z(c)
    } else if cond == 0x9 {
        !s_flag_c(c) || s_flag_z(c)
    } else if cond == 0xA {
        s_flag_n(c) == s_flag_v(c)
    } else if cond == 0xB {
        s_flag_n(c) != s_flag_v(c)
    } else if cond == 0xC {
        !s_flag_z(c) && (s_flag_n(c) == s_flag_v(c))
    } else if cond == 0xD {
        s_flag_z(c) || (s_flag_n(c) != s_flag_v(c))
    } else {
        true
    }
}

/// Replacing N and Z from a result's sign bit and zeroness.
pub open spec fn s_set_nz(c: CpuSnap, result: u32) -> CpuSnap {
    let base = c.cpsr & !(CPSR_N | CPSR_Z);
    let with_z = if result == 0 {
        base | CPSR_Z
    } else {
        base
    };
    let with_n = if result & 0x8000_0000 != 0 {
        with_z | CPSR_N
    } else {
        with_z
    };
    CpuSnap { cpsr: with_n, ..c }
}

/// Setting or clearing a single CPSR bit.
pub open spec fn s_set_flag(c: CpuSnap, bit: u32, on: bool) -> CpuSnap {
    CpuSnap { cpsr: if on { c.cpsr | bit } else { c.cpsr & !bit }, ..c }
}

/// Writing one register.
pub open spec fn s_with_reg(c: CpuSnap, i: int, v: u32) -> CpuSnap {
    CpuSnap { regs: c.regs.update(i, v), ..c }
}

/// Advancing the cycle counter (wrapping, like the counter itself).
pub open spec fn s_add_cycles(c: CpuSnap, n: u64) -> CpuSnap {
    CpuSnap { cycles: c.cycles.wrapping_add(n), ..c }
}

/// The five high registers spliced into positions 8..13 of a register file.
pub open spec fn s_splice_high(regs: Seq<u32>, high: Seq<u32>) -> Seq<u32> {
    Seq::new(regs.len(), |i: int| if 8 <= i < 13 { high[i - 8] } else { regs[i] })
}

/// The mode-switch transition: bank the outgoing mode's SP and LR, swap the
/// FIQ high-register bank on FIQ entry or exit, load the incoming mode's SP
/// and LR, and rewrite the CPSR mode field.  A switch to the current mode is
/// a no-op.
pub open spec fn s_switch_mode(c: CpuSnap, new_mode: u32) -> CpuSnap {
    let old_mode = s_mode(c);
    if old_mode == new_mode {
        c
    } else {
        let oi = s_mode_index(old_mode);
        let ni = s_mode_index(new_mode);
        let sp1 = c.sp_bank.update(oi, c.regs[13]);
        let lr1 = c.lr_bank.update(oi, c.regs[14]);
        let regs1 = if old_mode == MODE_FIQ {
            s_splice_high(c.regs, c.usr_bank)
        } else {
            c.regs
        };
        let fiq1 = if old_mode == MODE_FIQ {
            c.regs.subrange(8, 13)
        } else {
            c.fiq_bank
        };
        let regs2 = regs1.update(13, sp1[ni]).update(14, lr1[ni]);
        let regs3 = if new_mode == MODE_FIQ {
            s_splice_high(regs2, fiq1)
        } else {
            regs2
        };
        let usr1 = if new_mode == MODE_FIQ {
            regs2.subrange(8, 13)
        } else {
            c.usr_bank
        };
        CpuSnap {
            regs: regs3,
            cpsr: (c.cpsr & !0x1Fu32) | (new_mode & 0x1F),
            sp_bank: sp1,
            lr_bank: lr1,
            fiq_bank: fiq1,
            usr_bank: usr1,
            ..c
        }
    }
}

/// The SPSR slot of the current mode.
pub open spec fn s_get_spsr(c: CpuSnap) -> u32 {
    c.spsr[s_mode_index(s_mode(c))]
}

pub open spec fn s_set_spsr(c: CpuSnap, value: u32) -> CpuSnap {
    CpuSnap { spsr: c.spsr.update(s_mode_index(s_mode(c)), value), ..c }
}

impl Cpu {
    pub fn new() -> (c: Self)
        ensures
            c@ == s_cpu_new(),
            c@.wf(),
    {
        let c = Self {
            regs: [
                0, 0, 0, 0, 0, 0, 0, 0, 0, 0, 0, 0, 0, 0, 0, 0x0010_0000,
            ],
            cpsr: MODE_SVC | CPSR_I | CPSR_F,
            spsr: [0; 6],
            banked_regs: BankedRegs { sp: [0; 6], lr: [0; 6], fiq_r8_r12: [0; 5], usr_r8_r12: [0; 5] },
            cycles: 0,
            halted: false,
            svc_pending: None,
            cp15: Cp15::new(),
        };
        proof {
            assert(c@.regs =~= s_cpu_new().regs);
            assert(c@.spsr =~= s_cpu_new().spsr);
            assert(c@.sp_bank =~= s_cpu_new().sp_bank);
            assert(c@.lr_bank =~= s_cpu_new().lr_bank);
            assert(c@.fiq_bank =~= s_cpu_new().fiq_bank);
            assert(c@.usr_bank =~= s_cpu_new().usr_bank);
            assert(c@ =~= s_cpu_new());
        }
        c
    }

    pub fn pc(&self) -> (r: u32)
        ensures
            r == self@.regs[15],
    {
        self.regs[15]
    }

    pub fn set_pc(&mut self, addr: u32)
        ensures
            final(self)@ == s_with_reg(old(self)@, 15, addr),
    {
        self.regs[15] = addr;
        proof {
            assert(self@ =~= s_with_reg(old(self)@, 15, addr));
        }
    }

    pub fn in_thumb_mode(&self) -> (b: bool)
        ensures
            b == s_in_thumb(self@),
    {
        self.cpsr & CPSR_T != 0
    }

    pub fn mode(&self) -> (m: u32)
        ensures
            m == s_mode(self@),
    {
        self.cpsr & 0x1F
    }

    fn mode_index(mode: u32) -> (i: usize)
        ensures
            i == s_mode_index(mode),
            i < 6,
    {
        if mode == MODE_FIQ {
            1
        } else if mode == MODE_IRQ {
            2
        } else if mode == MODE_SVC {
            3
        } else if mode == MODE_ABT {
            4
        } else if mode == MODE_UND {
            5
        } else {
            0
        }
    }

    pub fn switch_mode(&mut self, new_mode: u32)
        requires
            old(self)@.wf(),
        ensures
            final(self)@ == s_switch_mode(old(self)@, new_mode),
            final(self)@.wf(),
    {
        let old_mode = self.mode();
        if old_mode == new_mode {
            return ;
        }
        let old_idx = Self::mode_index(old_mode);
        self.banked_regs.sp[old_idx] = self.regs[13];
        self.banked_regs.lr[old_idx] = self.regs[14];

        if old_mode == MODE_FIQ {
            self.banked_regs.fiq_r8_r12[0] = self.regs[8];
            self.banked_regs.fiq_r8_r12[1] = self.regs[9];
            self.banked_regs.fiq_r8_r12[2] = self.regs[10];
            self.banked_regs.fiq_r8_r12[3] = self.regs[11];
            self.banked_regs.fiq_r8_r12[4] = self.regs[12];
            self.regs[8] = self.banked_regs.usr_r8_r12[0];
            self.regs[9] = self.banked_regs.usr_r8_r12[1];
            self.regs[10] = self.banked_regs.usr_r8_r12[2];
            self.regs[11] = self.banked_regs.usr_r8_r12[3];
            self.regs[12] = self.banked_regs.usr_r8_r12[4];
        }

        let new_idx = Self::mode_index(new_mode);
        self.regs[13] = self.banked_regs.sp[new_idx];
        self.regs[14] = self.banked_regs.lr[new_idx];

        if new_mode == MODE_FIQ {
            self.banked_regs.usr_r8_r12[0] = self.regs[8];
            self.banked_regs.usr_r8_r12[1] = self.regs[9];
            self.banked_regs.usr_r8_r12[2] = self.regs[10];
            self.banked_regs.usr_r8_r12[3] = self.regs[11];
            self.banked_regs.usr_r8_r12[4] = self.regs[12];
            self.regs[8] = self.banked_regs.fiq_r8_r12[0];
            self.regs[9] = self.banked_regs.fiq_r8_r12[1];
            self.regs[10] = self.banked_regs.fiq_r8_r12[2];
            self.regs[11] = self.banked_regs.fiq_r8_r12[3];
            self.regs[12] = self.banked_regs.fiq_r8_r12[4];
        }

        self.cpsr = (self.cpsr & !0x1F) | (new_mode & 0x1F);
        proof {
            let spec = s_switch_mode(old(self)@, new_mode);
            assert(self@.regs =~= spec.regs);
            assert(self@.sp_bank =~= spec.sp_bank);
            assert(self@.lr_bank =~= spec.lr_bank);
            assert(self@.fiq_bank =~= spec.fiq_bank);
            assert(self@.usr_bank =~= spec.usr_bank);
            assert(self@ =~= spec);
        }
    }

    pub fn get_spsr(&self) -> (r: u32)
        requires
            self@.wf(),
        ensures
            r == s_get_spsr(self@),
    {
        let idx = Self::mode_index(self.cpsr & 0x1F);
        self.spsr[idx]
    }

    pub fn set_spsr(&mut self, value: u32)
        requires
            old(self)@.wf(),
        ensures
            final(self)@ == s_set_spsr(old(self)@, value),
            final(self)@.wf(),
    {
        let idx = Self::mode_index(self.cpsr & 0x1F);
        self.spsr[idx] = value;
        proof {
            assert(self@ =~= s_set_spsr(old(self)@, value));
        }
    }

    pub fn set_nz(&mut self, result: u32)
        ensures
            final(self)@ == s_set_nz(old(self)@, result),
    {
        self.cpsr = self.cpsr & !(CPSR_N | CPSR_Z);
        if result == 0 {
            self.cpsr = self.cpsr | CPSR_Z;
        }
        if result & 0x8000_0000 != 0 {
            self.cpsr = self.cpsr | CPSR_N;
        }
        proof {
            assert(self@ =~= s_set_nz(old(self)@, result));
        }
    }

    pub fn flag_n(&self) -> (b: bool)
        ensures
            b == s_flag_n(self@),
    {
        self.cpsr & CPSR_N != 0
    }

    pub fn flag_z(&self) -> (b: bool)
        ensures
            b == s_flag_z(self@),
    {
        self.cpsr & CPSR_Z != 0
    }

    pub fn flag_c(&self) -> (b: bool)
        ensures
            b == s_flag_c(self@),
    {
        self.cpsr & CPSR_C != 0
    }

    pub fn flag_v(&self) -> (b: bool)
        ensures
            b == s_flag_v(self@),
    {
        self.cpsr & CPSR_V != 0
    }

    pub fn check_condition(&self, cond: u32) -> (b: bool)
        ensures
            b == s_check_condition(self@, cond),
    {
        if cond == 0x0 {
            self.flag_z()
        } else if cond == 0x1 {
            !self.flag_z()
        } else if cond == 0x2 {
            self.flag_c()
        } else if cond == 0x3 {
            !self.flag_c()
        } else if cond == 0x4 {
            self.flag_n()
        } else if cond == 0x5 {
            !self.flag_n()
        } else if cond == 0x6 {
            self.flag_v()
        } else if cond == 0x7 {
            !self.flag_v()
        } else if cond == 0x8 {
            self.flag_c() && !self.flag_z()
        } else if cond == 0x9 {
            !self.flag_c() || self.flag_z()
        } else if cond == 0xA {
            self.flag_n() == self.flag_v()
        } else if cond == 0xB {
            self.flag_n() != self.flag_v()
        } else if cond == 0xC {
            !self.flag_z() && (self.flag_n() == self.flag_v())
        } else if cond == 0xD {
            self.flag_z() || (self.flag_n() != self.flag_v())
        } else {
            true
        }
    }

    pub fn set_flag(&mut self, bit: u32, on: bool)
        ensures
            final(self)@ == s_set_flag(old(self)@, bit, on),
    {
        if on {
            self.cpsr = self.cpsr | bit;
        } else {
            self.cpsr = self.cpsr & !bit;
        }
        proof {
            assert(self@ =~= s_set_flag(old(self)@, bit, on));
        }
    }

    pub fn add_cycles(&mut self, n: u64)
        ensures
            final(self)@ == s_add_cycles(old(self)@, n),
    {
        self.cycles = self.cycles.wrapping_add(n);
        proof {
            assert(self@ =~= s_add_cycles(old(self)@, n));
        }
    }
}

/// Switching to a mode and back restores the SP and LR that were visible
/// before, for any 5-bit target mode value.
pub proof fn lemma_switch_mode_round_trip(c: CpuSnap, m: u32)
    requires
        c.wf(),
        m & 0x1F == m,
    ensures
        s_switch_mode(s_switch_mode(c, m), s_mode(c)).regs[13] == c.regs[13],
        s_switch_mode(s_switch_mode(c, m), s_mode(c)).regs[14] == c.regs[14],
{
    let w = c.cpsr;
    assert((w & 0x1F) & 0x1F == w & 0x1F) by (bit_vector);
    let c1 = s_switch_mode(c, m);
    if s_mode(c) != m {
        let w1 = c1.cpsr;
        assert(w1 & 0x1F == m) by (bit_vector)
            requires
                w1 == (w & !0x1Fu32) | (m & 0x1F) && m & 0x1F == m,
        ;
    }
}

} // verus!
