//! Guest threads: a saved sixteen-register snapshot with CPSR, a signed
//! priority (lower value runs first), a lifecycle state, and the reason the
//! thread is waiting, if it is.

use vstd::prelude::*;

verus! {

use crate::memory::VADDR_TLS_BASE;

#[derive(Debug, Clone, Copy, PartialEq, Eq, Structural)]
pub enum ThreadState {
    Ready,
    Running,
    Waiting,
    Dead,
}

#[derive(Debug, Clone, Copy, PartialEq, Eq, Structural)]
pub enum WaitReason {
    NoWait,
    Sleep(u64),
    Mutex(u32),
    Semaphore(u32),
    Event(u32),
    Arbitration(u32),
    SyncMultiple,
}

#[derive(Clone, Copy)]
pub struct SavedRegisters {
    pub regs: [u32; 16],
    pub cpsr: u32,
}

impl SavedRegisters {
    pub fn new() -> (r: Self)
        ensures
            r.regs@ =~= Seq::new(16, |i: int| 0u32),
            r.cpsr == 0,
    {
        Self { regs: [0; 16], cpsr: 0 }
    }

    pub fn pc(&self) -> (r: u32)
        ensures
            r == self.regs@[15],
    {
        self.regs[15]
    }

    pub fn sp(&self) -> (r: u32)
        ensures
            r == self.regs@[13],
    {
        self.regs[13]
    }
}

#[derive(Clone, Copy)]
pub struct Thread {
    pub id: u32,
    pub process_id: u32,
    pub priority: i32,
    pub state: ThreadState,
    pub saved: SavedRegisters,
    pub wait_reason: WaitReason,
    pub wait_timeout: u64,
    pub tls_addr: u32,
    pub stack_top: u32,
    pub entrypoint: u32,
}

/// Mathematical snapshot of a thread, with the saved register file as a
/// sequence.
#[verifier::ext_equal]
pub struct ThreadSnap {
    pub id: u32,
    pub process_id: u32,
    pub priority: i32,
    pub state: ThreadState,
    pub regs: Seq<u32>,
    pub cpsr: u32,
    pub wait_reason: WaitReason,
    pub wait_timeout: u64,
    pub tls_addr: u32,
    pub stack_top: u32,
    pub entrypoint: u32,
}

impl View for Thread {
    type V = ThreadSnap;

    open spec fn view(&self) -> ThreadSnap {
        ThreadSnap {
            id: self.id,
            process_id: self.process_id,
            priority: self.priority,
            state: self.state,
            regs: self.saved.regs@,
            cpsr: self.saved.cpsr,
            wait_reason: self.wait_reason,
            wait_timeout: self.wait_timeout,
            tls_addr: self.tls_addr,
            stack_top: self.stack_top,
            entrypoint: self.entrypoint,
        }
    }
}

/// A fresh thread: Ready, PC at the entry point (low bit selecting Thumb via
/// the CPSR T bit), SP at the stack top, user mode.
pub open spec fn s_thread_new(
    id: u32,
    process_id: u32,
    entrypoint: u32,
    stack_top: u32,
    priority: i32,
) -> ThreadSnap {
    ThreadSnap {
        id,
        process_id,
        priority,
        state: ThreadState::Ready,
        regs: Seq::new(
            16,
            |i: int|
                if i == 15 {
                    entrypoint & !1u32
                } else if i == 13 {
                    stack_top
                } else {
                    0u32
                },
        ),
        cpsr: if entrypoint & 1 != 0 {
            0x10u32 | (1u32 << 5)
        } else {
            0x10u32
        },
        wait_reason: WaitReason::NoWait,
        wait_timeout: 0,
        tls_addr: VADDR_TLS_BASE,
        stack_top,
        entrypoint,
    }
}

pub open spec fn s_suspend(t: ThreadSnap, reason: WaitReason) -> ThreadSnap {
    ThreadSnap { state: ThreadState::Waiting, wait_reason: reason, ..t }
}

pub open spec fn s_suspend_timed(t: ThreadSnap, reason: WaitReason, timeout_ns: u64) -> ThreadSnap {
    ThreadSnap { state: ThreadState::Waiting, wait_reason: reason, wait_timeout: timeout_ns, ..t }
}

/// Waking is a no-op unless the thread is actually waiting.
pub open spec fn s_wake(t: ThreadSnap) -> ThreadSnap {
    if t.state == ThreadState::Waiting {
        ThreadSnap { state: ThreadState::Ready, wait_reason: WaitReason::NoWait, wait_timeout: 0, ..t }
    } else {
        t
    }
}

pub open spec fn s_kill(t: ThreadSnap) -> ThreadSnap {
    ThreadSnap { state: ThreadState::Dead, ..t }
}

pub open spec fn s_is_waiting_on(t: ThreadSnap, handle: u32) -> bool {
    match t.wait_reason {
        WaitReason::Mutex(h) => h == handle,
        WaitReason::Semaphore(h) => h == handle,
        WaitReason::Event(h) => h == handle,
        WaitReason::Arbitration(a) => a == handle,
        _ => false,
    }
}

impl Thread {
    pub fn new(id: u32, process_id: u32, entrypoint: u32, stack_top: u32, priority: i32) -> (t: Self)
        ensures
            t@ == s_thread_new(id, process_id, entrypoint, stack_top, priority),
    {
        let mut saved = SavedRegisters::new();
        saved.regs[15] = entrypoint;
        saved.regs[13] = stack_top;
        if entrypoint & 1 != 0 {
            saved.cpsr = 0x10 | (1 << 5);
            saved.regs[15] = entrypoint & !1;
        } else {
            saved.cpsr = 0x10;
        }
        let t = Self {
            id,
            process_id,
            priority,
            state: ThreadState::Ready,
            saved,
            wait_reason: WaitReason::NoWait,
            wait_timeout: 0,
            tls_addr: VADDR_TLS_BASE,
            stack_top,
            entrypoint,
        };
        proof {
            assert((entrypoint & 1 == 0) ==> (entrypoint & !1u32) == entrypoint) by (bit_vector);
            assert(t@.regs =~= s_thread_new(id, process_id, entrypoint, stack_top, priority).regs);
            assert(t@ =~= s_thread_new(id, process_id, entrypoint, stack_top, priority));
        }
        t
    }

    pub fn suspend(&mut self, reason: WaitReason)
        ensures
            final(self)@ == s_suspend(old(self)@, reason),
    {
        self.state = ThreadState::Waiting;
        self.wait_reason = reason;
        proof {
            assert(self@ =~= s_suspend(old(self)@, reason));
        }
    }

    pub fn suspend_timed(&mut self, reason: WaitReason, timeout_ns: u64)
        ensures
            final(self)@ == s_suspend_timed(old(self)@, reason, timeout_ns),
    {
        self.state = ThreadState::Waiting;
        self.wait_reason = reason;
        self.wait_timeout = timeout_ns;
        proof {
            assert(self@ =~= s_suspend_timed(old(self)@, reason, timeout_ns));
        }
    }

    pub fn wake(&mut self)
        ensures
            final(self)@ == s_wake(old(self)@),
    {
        if self.state == ThreadState::Waiting {
            self.state = ThreadState::Ready;
            self.wait_reason = WaitReason::NoWait;
            self.wait_timeout = 0;
        }
        proof {
            assert(self@ =~= s_wake(old(self)@));
        }
    }

    pub fn kill(&mut self)
        ensures
            final(self)@ == s_kill(old(self)@),
    {
        self.state = ThreadState::Dead;
        proof {
            assert(self@ =~= s_kill(old(self)@));
        }
    }

    pub fn is_alive(&self) -> (r: bool)
        ensures
            r == (self@.state != ThreadState::Dead),
    {
        self.state != ThreadState::Dead
    }

    pub fn is_waiting_on(&self, handle: u32) -> (r: bool)
        ensures
            r == s_is_waiting_on(self@, handle),
    {
        match self.wait_reason {
            WaitReason::Mutex(h) => h == handle,
            WaitReason::Semaphore(h) => h == handle,
            WaitReason::Event(h) => h == handle,
            WaitReason::Arbitration(a) => a == handle,
            _ => false,
        }
    }

    pub fn save_cpu(&mut self, regs: &[u32; 16], cpsr: u32)
        ensures
            final(self)@ == (ThreadSnap { regs: regs@, cpsr, ..old(self)@ }),
    {
        self.saved.regs = *regs;
        self.saved.cpsr = cpsr;
        proof {
            assert(self@ =~= (ThreadSnap { regs: regs@, cpsr, ..old(self)@ }));
        }
    }

    pub fn restore_into(&self, regs: &mut [u32; 16], cpsr: &mut u32)
        ensures
            final(regs)@ == self@.regs,
            *final(cpsr) == self@.cpsr,
    {
        *regs = self.saved.regs;
        *cpsr = self.saved.cpsr;
    }
}

} // verus!
