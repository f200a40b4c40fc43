//! System-call dispatch.  The dispatcher first returns the CPU from SVC mode
//! (PC from LR, CPSR from the banked SPSR) and then runs the requested
//! operation; results go to R0, secondary values to R1.  Unknown system
//! calls succeed silently — the runtime is deliberately permissive.

use vstd::prelude::*;

verus! {

use crate::cpu::Cpu;
use crate::cpu::CpuSnap;
use crate::cpu::s_get_spsr;
use crate::cpu::s_switch_mode;
use crate::cpu::s_with_reg;
use crate::kernel::HandleEntry;
use crate::kernel::HandleSnap;
use crate::kernel::Kernel;
use crate::kernel::KernelSnap;
use crate::kernel::MAX_THREADS;
use crate::kernel::s_alloc_handle;
use crate::kernel::s_connect_to_port;
use crate::kernel::s_lookup;
use crate::kernel::s_sat_inc;
use crate::kernel::s_store;
use crate::kernel::s_table_close;
use crate::kernel::bytes_to_vec;
use crate::kernel::clone_bytes;
use crate::kernel::lemma_find_from_scan;
use crate::kernel::sync;
use crate::kernel::sync::AcquireResult;
use crate::kernel::sync::EventState;
use crate::kernel::sync::MutexState;
use crate::kernel::sync::ResetType;
use crate::kernel::sync::SemaphoreState;
use crate::kernel::sync::SyncObject;
use crate::kernel::sync::SyncSnap;
use crate::kernel::sync::s_acquire;
use crate::kernel::sync::s_clear_event;
use crate::kernel::sync::s_release;
use crate::kernel::thread::Thread;
use crate::kernel::thread::ThreadSnap;
use crate::kernel::thread::ThreadState;
use crate::kernel::thread::WaitReason;
use crate::kernel::thread::s_kill;
use crate::kernel::thread::s_suspend;
use crate::kernel::thread::s_suspend_timed;
use crate::kernel::thread::s_thread_new;
use crate::kernel::thread::s_wake;
use crate::memory::MemSnap;
use crate::memory::Memory;
use crate::memory::s_mem_read8;
use crate::memory::s_mem_read32;
use crate::memory::s_mem_write32;
use crate::memory::s_page_align;

pub const RESULT_SUCCESS: u32 = 0;

pub const RESULT_INVALID_HANDLE: u32 = 0xD8E007F7;

pub const RESULT_TIMEOUT: u32 = 0x09401BFE;

pub const RESULT_NOT_FOUND: u32 = 0xD88007FA;

pub const RESULT_OUT_OF_RANGE: u32 = 0xD8E007FD;

/// The id of the thread owning the CPU, if the current index is in range.
pub open spec fn s_cur_tid(k: KernelSnap) -> Option<u32> {
    if 0 <= k.current_thread < k.threads.len() {
        Some(k.threads[k.current_thread].id)
    } else {
        None
    }
}

/// First index of the thread with this id, or the count if there is none.
pub open spec fn s_thread_idx(ts: Seq<ThreadSnap>, tid: u32) -> int
    decreases ts.len(),
{
    if ts.len() == 0 {
        0
    } else if ts.first().id == tid {
        0
    } else {
        1 + s_thread_idx(ts.drop_first(), tid)
    }
}

pub proof fn lemma_thread_idx_bounds(ts: Seq<ThreadSnap>, tid: u32)
    ensures
        0 <= s_thread_idx(ts, tid) <= ts.len(),
        s_thread_idx(ts, tid) < ts.len() ==> ts[s_thread_idx(ts, tid)].id == tid,
    decreases ts.len(),
{
    if ts.len() > 0 && ts.first().id != tid {
        lemma_thread_idx_bounds(ts.drop_first(), tid);
    }
}

proof fn lemma_thread_idx_from_scan(ts: Seq<ThreadSnap>, tid: u32, i: int)
    requires
        0 <= i <= ts.len(),
        forall|j: int| 0 <= j < i ==> ts[j].id != tid,
        i < ts.len() ==> ts[i].id == tid,
    ensures
        i < ts.len() ==> s_thread_idx(ts, tid) == i,
        i == ts.len() ==> s_thread_idx(ts, tid) == ts.len(),
    decreases i,
{
    if i == 0 {
        if ts.len() > 0 && ts.first().id != tid {
            lemma_thread_idx_bounds(ts.drop_first(), tid);
        }
    } else {
        lemma_thread_idx_from_scan(ts.drop_first(), tid, i - 1);
    }
}

/// Waking the first thread with the given id, if any.
pub open spec fn s_wake_tid(ts: Seq<ThreadSnap>, tid: u32) -> Seq<ThreadSnap> {
    let i = s_thread_idx(ts, tid);
    if i < ts.len() {
        ts.update(i, s_wake(ts[i]))
    } else {
        ts
    }
}

/// Waking each listed thread in order.
pub open spec fn s_wake_tids(ts: Seq<ThreadSnap>, tids: Seq<u32>) -> Seq<ThreadSnap>
    decreases tids.len(),
{
    if tids.len() == 0 {
        ts
    } else {
        s_wake_tids(s_wake_tid(ts, tids.first()), tids.drop_first())
    }
}

pub proof fn lemma_wake_tids_push(ts: Seq<ThreadSnap>, tids: Seq<u32>, t: u32)
    ensures
        s_wake_tids(ts, tids.push(t)) == s_wake_tid(s_wake_tids(ts, tids), t),
    decreases tids.len(),
{
    if tids.len() == 0 {
        let d = tids.push(t);
        assert(d.drop_first() =~= Seq::<u32>::empty());
        assert(s_wake_tids(s_wake_tid(ts, t), Seq::<u32>::empty()) == s_wake_tid(ts, t));
    } else {
        assert(tids.push(t).drop_first() =~= tids.drop_first().push(t));
        lemma_wake_tids_push(s_wake_tid(ts, tids.first()), tids.drop_first(), t);
    }
}

/// Acquire a sync object by its id on behalf of a thread: the stored object
/// advances by the acquire transition.
pub open spec fn s_k_acquire(k: KernelSnap, sync_id: u32, tid: u32) -> (
    KernelSnap,
    Option<AcquireResult>,
) {
    match s_lookup(k.sync_objects, sync_id) {
        Some(o) => (
            KernelSnap { sync_objects: s_store(k.sync_objects, sync_id, s_acquire(o, tid).0), ..k },
            Some(s_acquire(o, tid).1),
        ),
        None => (k, None),
    }
}

/// Release a sync object by its id and wake the returned FIFO of waiters.
pub open spec fn s_k_release(k: KernelSnap, sync_id: u32, tid: u32) -> KernelSnap {
    match s_lookup(k.sync_objects, sync_id) {
        Some(o) => KernelSnap {
            sync_objects: s_store(k.sync_objects, sync_id, s_release(o, tid).0),
            threads: s_wake_tids(k.threads, s_release(o, tid).1),
            ..k
        },
        None => k,
    }
}

/// Find the position of a sync id in the object list.
pub(crate) fn sync_index(kernel: &Kernel, sync_id: u32) -> (r: Option<usize>)
    ensures
        match r {
            Some(i) => i < kernel@.sync_objects.len() && i == crate::kernel::s_find(
                kernel@.sync_objects,
                sync_id,
            ) && kernel@.sync_objects[i as int].0 == sync_id,
            None => s_lookup(kernel@.sync_objects, sync_id) is None,
        },
{
    let n = kernel.sync_objects.len();
    let mut i: usize = 0;
    while i < n
        invariant
            i <= n,
            n == kernel.sync_objects@.len(),
            forall|j: int| 0 <= j < i ==> kernel@.sync_objects[j].0 != sync_id,
        decreases n - i,
    {
        if kernel.sync_objects[i].0 == sync_id {
            proof {
                lemma_find_from_scan(kernel@.sync_objects, sync_id, i as int);
            }
            return Some(i);
        }
        i = i + 1;
    }
    proof {
        lemma_find_from_scan(kernel@.sync_objects, sync_id, n as int);
    }
    None
}

/// Store a fresh sync object under a fresh id.
pub(crate) fn sync_store(kernel: &mut Kernel, sync_id: u32, obj: SyncObject)
    ensures
        final(kernel)@ == (KernelSnap {
            sync_objects: s_store(old(kernel)@.sync_objects, sync_id, obj@),
            ..old(kernel)@
        }),
{
    let n = kernel.sync_objects.len();
    let mut i: usize = 0;
    while i < n
        invariant
            i <= n,
            n == kernel.sync_objects@.len(),
            kernel@ == old(kernel)@,
            forall|j: int| 0 <= j < i ==> kernel@.sync_objects[j].0 != sync_id,
        decreases n - i,
    {
        if kernel.sync_objects[i].0 == sync_id {
            proof {
                lemma_find_from_scan(kernel@.sync_objects, sync_id, i as int);
            }
            kernel.sync_objects[i] = (sync_id, obj);
            proof {
                assert(kernel@.sync_objects =~= s_store(
                    old(kernel)@.sync_objects,
                    sync_id,
                    obj@,
                ));
                assert(kernel@ =~= (KernelSnap {
                    sync_objects: s_store(old(kernel)@.sync_objects, sync_id, obj@),
                    ..old(kernel)@
                }));
            }
            return ;
        }
        i = i + 1;
    }
    proof {
        lemma_find_from_scan(kernel@.sync_objects, sync_id, n as int);
    }
    kernel.sync_objects.push((sync_id, obj));
    proof {
        assert(kernel@.sync_objects =~= s_store(old(kernel)@.sync_objects, sync_id, obj@));
        assert(kernel@ =~= (KernelSnap {
            sync_objects: s_store(old(kernel)@.sync_objects, sync_id, obj@),
            ..old(kernel)@
        }));
    }
}

/// Run the acquire transition on the object with this id.
fn k_acquire(kernel: &mut Kernel, sync_id: u32, tid: u32) -> (r: Option<AcquireResult>)
    ensures
        final(kernel)@ == s_k_acquire(old(kernel)@, sync_id, tid).0,
        r == s_k_acquire(old(kernel)@, sync_id, tid).1,
{
    match sync_index(kernel, sync_id) {
        Some(i) => {
            let (key, mut obj) = kernel.sync_objects.remove(i);
            let res = sync::acquire(&mut obj, tid);
            kernel.sync_objects.insert(i, (key, obj));
            proof {
                assert(kernel@.sync_objects =~= s_store(
                    old(kernel)@.sync_objects,
                    sync_id,
                    s_acquire(s_lookup(old(kernel)@.sync_objects, sync_id)->Some_0, tid).0,
                ));
                assert(kernel@ =~= s_k_acquire(old(kernel)@, sync_id, tid).0);
            }
            Some(res)
        },
        None => None,
    }
}

/// Wake the first thread with the given id.
fn wake_tid(kernel: &mut Kernel, tid: u32)
    ensures
        final(kernel)@ == (KernelSnap {
            threads: s_wake_tid(old(kernel)@.threads, tid),
            ..old(kernel)@
        }),
{
    let n = kernel.threads.len();
    let mut i: usize = 0;
    while i < n
        invariant
            i <= n,
            n == kernel.threads@.len(),
            kernel@ == old(kernel)@,
            forall|j: int| 0 <= j < i ==> kernel@.threads[j].id != tid,
        decreases n - i,
    {
        if kernel.threads[i].id == tid {
            proof {
                lemma_thread_idx_from_scan(kernel@.threads, tid, i as int);
            }
            let mut t = kernel.threads[i];
            t.wake();
            kernel.threads[i] = t;
            proof {
                assert(kernel@.threads =~= s_wake_tid(old(kernel)@.threads, tid));
                assert(kernel@ =~= (KernelSnap {
                    threads: s_wake_tid(old(kernel)@.threads, tid),
                    ..old(kernel)@
                }));
            }
            return ;
        }
        i = i + 1;
    }
    proof {
        lemma_thread_idx_from_scan(kernel@.threads, tid, n as int);
        assert(kernel@.threads =~= s_wake_tid(old(kernel)@.threads, tid));
        assert(kernel@ =~= (KernelSnap {
            threads: s_wake_tid(old(kernel)@.threads, tid),
            ..old(kernel)@
        }));
    }
}

/// Wake each listed thread, in FIFO order.
pub(crate) fn wake_tids(kernel: &mut Kernel, woken: &Vec<u32>)
    ensures
        final(kernel)@ == (KernelSnap {
            threads: s_wake_tids(old(kernel)@.threads, woken@),
            ..old(kernel)@
        }),
{
    let n = woken.len();
    let mut i: usize = 0;
    while i < n
        invariant
            i <= n,
            n == woken@.len(),
            kernel@ == (KernelSnap {
                threads: s_wake_tids(old(kernel)@.threads, woken@.take(i as int)),
                ..old(kernel)@
            }),
        decreases n - i,
    {
        wake_tid(kernel, woken[i]);
        proof {
            lemma_wake_tids_push(old(kernel)@.threads, woken@.take(i as int), woken@[i as int]);
            assert(woken@.take(i as int).push(woken@[i as int]) =~= woken@.take(i + 1));
            assert(kernel@ =~= (KernelSnap {
                threads: s_wake_tids(old(kernel)@.threads, woken@.take(i + 1)),
                ..old(kernel)@
            }));
        }
        i = i + 1;
    }
    proof {
        assert(woken@.take(n as int) =~= woken@);
    }
}

/// Run the release transition on the object with this id and wake the
/// returned waiters.
fn k_release(kernel: &mut Kernel, sync_id: u32, tid: u32)
    ensures
        final(kernel)@ == s_k_release(old(kernel)@, sync_id, tid),
{
    match sync_index(kernel, sync_id) {
        Some(i) => {
            let (key, mut obj) = kernel.sync_objects.remove(i);
            let woken = sync::release(&mut obj, tid);
            kernel.sync_objects.insert(i, (key, obj));
            proof {
                assert(kernel@.sync_objects =~= s_store(
                    old(kernel)@.sync_objects,
                    sync_id,
                    s_release(s_lookup(old(kernel)@.sync_objects, sync_id)->Some_0, tid).0,
                ));
            }
            wake_tids(kernel, &woken);
            proof {
                assert(kernel@ =~= s_k_release(old(kernel)@, sync_id, tid));
            }
        },
        None => {},
    }
}

/// An owned copy of a handle entry (a plain clone would carry no contract).
fn clone_entry(e: &HandleEntry) -> (r: HandleEntry)
    ensures
        r@ == e@,
{
    match e {
        HandleEntry::Process(p) => HandleEntry::Process(*p),
        HandleEntry::Thread(t) => HandleEntry::Thread(*t),
        HandleEntry::Mutex(m) => HandleEntry::Mutex(*m),
        HandleEntry::Semaphore(s) => HandleEntry::Semaphore(*s),
        HandleEntry::Event(ev) => HandleEntry::Event(*ev),
        HandleEntry::Port(n) => HandleEntry::Port(clone_bytes(n)),
        HandleEntry::Session(n) => HandleEntry::Session(clone_bytes(n)),
        HandleEntry::SharedMemory(a, sz) => HandleEntry::SharedMemory(*a, *sz),
        HandleEntry::Timer => HandleEntry::Timer,
    }
}

/// ControlMemory: on the allocating operations a zero address allocates from
/// the bump heap; otherwise the given address is acknowledged.
pub open spec fn s_svc_control_memory(c: CpuSnap, m: MemSnap) -> (CpuSnap, MemSnap) {
    let op = c.regs[0];
    let addr0 = c.regs[1];
    let size = c.regs[3];
    let opl = op & 0x0000_FFFF;
    let cm: (CpuSnap, MemSnap) = if opl == 0x0001 {
        if addr0 != 0 {
            (s_with_reg(c, 1, addr0), m)
        } else {
            (s_with_reg(c, 1, m.heap_end), MemSnap { heap_end: m.heap_end.wrapping_add(s_page_align(size)), ..m })
        }
    } else if opl == 0x0003 {
        if addr0 == 0 {
            (s_with_reg(c, 1, m.heap_end), MemSnap { heap_end: m.heap_end.wrapping_add(s_page_align(size)), ..m })
        } else {
            (s_with_reg(c, 1, addr0), m)
        }
    } else if opl == 0x0004 || opl == 0x0005 || opl == 0x0006 {
        (s_with_reg(c, 1, addr0), m)
    } else {
        if op & 0x3 != 0 {
            if addr0 == 0 {
                (s_with_reg(c, 1, m.heap_end), MemSnap { heap_end: m.heap_end.wrapping_add(s_page_align(size)), ..m })
            } else {
                (s_with_reg(c, 1, addr0), m)
            }
        } else {
            (s_with_reg(c, 1, addr0), m)
        }
    };
    (s_with_reg(cm.0, 0, RESULT_SUCCESS), cm.1)
}

fn svc_control_memory(cpu: &mut Cpu, mem: &mut Memory)
    requires
        old(cpu)@.wf(),
    ensures
        final(cpu)@ == s_svc_control_memory(old(cpu)@, old(mem)@).0,
        final(mem)@ == s_svc_control_memory(old(cpu)@, old(mem)@).1,
        final(cpu)@.wf(),
{
    let op = cpu.regs[0];
    let addr0 = cpu.regs[1];
    let size = cpu.regs[3];
    let opl = op & 0x0000_FFFF;
    if opl == 0x0001 {
        let v = if addr0 != 0 { addr0 } else { mem.alloc_heap(size) };
        cpu.regs[1] = v;
    } else if opl == 0x0003 {
        let v = if addr0 == 0 { mem.alloc_heap(size) } else { addr0 };
        cpu.regs[1] = v;
    } else if opl == 0x0004 || opl == 0x0005 || opl == 0x0006 {
        cpu.regs[1] = addr0;
    } else {
        if op & 0x3 != 0 {
            let v = if addr0 == 0 { mem.alloc_heap(size) } else { addr0 };
            cpu.regs[1] = v;
        } else {
            cpu.regs[1] = addr0;
        }
    }
    cpu.regs[0] = RESULT_SUCCESS;
    proof {
        assert(cpu@ =~= s_svc_control_memory(old(cpu)@, old(mem)@).0);
        assert(mem@ =~= s_svc_control_memory(old(cpu)@, old(mem)@).1);
    }
}

/// QueryMemory: a fixed committed read-write page containing the queried
/// address.
pub open spec fn s_svc_query_memory(c: CpuSnap) -> CpuSnap {
    let addr = c.regs[2];
    let c1 = s_with_reg(c, 1, addr);
    let c2 = s_with_reg(c1, 2, 0x1000);
    let c3 = s_with_reg(c2, 3, 0x3);
    let c4 = s_with_reg(c3, 4, 0x3);
    let c5 = s_with_reg(c4, 5, 0);
    s_with_reg(c5, 0, RESULT_SUCCESS)
}

fn svc_query_memory(cpu: &mut Cpu)
    requires
        old(cpu)@.wf(),
    ensures
        final(cpu)@ == s_svc_query_memory(old(cpu)@),
        final(cpu)@.wf(),
{
    let addr = cpu.regs[2];
    cpu.regs[1] = addr;
    cpu.regs[2] = 0x1000;
    cpu.regs[3] = 0x3;
    cpu.regs[4] = 0x3;
    cpu.regs[5] = 0;
    cpu.regs[0] = RESULT_SUCCESS;
    proof {
        assert(cpu@ =~= s_svc_query_memory(old(cpu)@));
    }
}

/// ExitProcess: every thread dies and the CPU halts.
pub open spec fn s_svc_exit_process(c: CpuSnap, k: KernelSnap) -> (CpuSnap, KernelSnap) {
    let c1 = CpuSnap { halted: true, ..c };
    (
        s_with_reg(c1, 0, RESULT_SUCCESS),
        KernelSnap { threads: k.threads.map_values(|t: ThreadSnap| s_kill(t)), ..k },
    )
}

/// Kill every thread in the list.
fn kill_all_vec(threads: &mut Vec<Thread>)
    ensures
        final(threads)@.map_values(|t: Thread| t@) == old(threads)@.map_values(|t: Thread| t@)
            .map_values(|t: ThreadSnap| s_kill(t)),
{
    let ghost orig = old(threads)@.map_values(|t: Thread| t@);
    let ghost goal = orig.map_values(|t: ThreadSnap| s_kill(t));
    let n = threads.len();
    let mut i: usize = 0;
    while i < n
        invariant
            i <= n,
            n == threads@.len(),
            orig == old(threads)@.map_values(|t: Thread| t@),
            goal == orig.map_values(|t: ThreadSnap| s_kill(t)),
            goal.len() == n,
            orig.len() == n,
            forall|j: int| i <= j < n ==> threads@[j] == old(threads)@[j],
            forall|j: int| 0 <= j < i ==> #[trigger] threads@[j]@ == goal[j],
        decreases n - i,
    {
        let mut t = threads[i];
        proof {
            assert(orig[i as int] == old(threads)@[i as int]@);
        }
        t.kill();
        threads[i] = t;
        proof {
            assert(threads@[i as int]@ =~= goal[i as int]);
        }
        i = i + 1;
    }
    proof {
        assert(threads@.map_values(|t: Thread| t@) =~= goal);
    }
}

fn svc_exit_process(cpu: &mut Cpu, kernel: &mut Kernel)
    requires
        old(cpu)@.wf(),
    ensures
        final(cpu)@ == s_svc_exit_process(old(cpu)@, old(kernel)@).0,
        final(kernel)@ == s_svc_exit_process(old(cpu)@, old(kernel)@).1,
        final(cpu)@.wf(),
{
    kill_all_vec(&mut kernel.threads);
    cpu.halted = true;
    cpu.regs[0] = RESULT_SUCCESS;
    proof {
        assert(kernel@ =~= s_svc_exit_process(old(cpu)@, old(kernel)@).1);
        assert(cpu@ =~= s_svc_exit_process(old(cpu)@, old(kernel)@).0);
    }
}

/// CreateThread: a new Ready thread in SYS mode with the caller-supplied
/// entry point, argument, stack and clamped priority; fails with
/// OUT_OF_RANGE at the thread cap.
pub open spec fn s_svc_create_thread(c: CpuSnap, k: KernelSnap) -> (CpuSnap, KernelSnap) {
    if k.threads.len() >= MAX_THREADS {
        (s_with_reg(c, 0, RESULT_OUT_OF_RANGE), k)
    } else {
        let entrypoint = c.regs[1];
        let arg = c.regs[2];
        let stack_top = c.regs[3];
        let p = c.regs[4] as i32;
        let priority: i32 = if p < 0 { 0 } else if p > 63 { 63 } else { p };
        let id = k.next_thread_id;
        let t0 = s_thread_new(id, 1, entrypoint, stack_top, priority);
        let t1 = ThreadSnap {
            regs: t0.regs.update(0, arg),
            cpsr: (t0.cpsr & !0x1Fu32) | 0x1F,
            ..t0
        };
        let k1 = KernelSnap {
            next_thread_id: s_sat_inc(k.next_thread_id),
            threads: k.threads.push(t1),
            ..k
        };
        let (k2, handle) = s_alloc_handle(k1, HandleSnap::Thread(id));
        let k3 = KernelSnap { needs_reschedule: true, ..k2 };
        (s_with_reg(s_with_reg(c, 1, handle), 0, RESULT_SUCCESS), k3)
    }
}

fn svc_create_thread(cpu: &mut Cpu, kernel: &mut Kernel)
    requires
        old(cpu)@.wf(),
    ensures
        final(cpu)@ == s_svc_create_thread(old(cpu)@, old(kernel)@).0,
        final(kernel)@ == s_svc_create_thread(old(cpu)@, old(kernel)@).1,
        final(cpu)@.wf(),
{
    if kernel.threads.len() >= MAX_THREADS {
        cpu.regs[0] = RESULT_OUT_OF_RANGE;
        proof {
            assert(cpu@ =~= s_svc_create_thread(old(cpu)@, old(kernel)@).0);
        }
        return ;
    }

    let entrypoint = cpu.regs[1];
    let arg = cpu.regs[2];
    let stack_top = cpu.regs[3];
    let p = cpu.regs[4] as i32;
    let priority: i32 = if p < 0 { 0 } else if p > 63 { 63 } else { p };

    let id = kernel.next_thread_id;
    if kernel.next_thread_id < 0xFFFF_FFFF {
        kernel.next_thread_id = kernel.next_thread_id + 1;
    }

    let mut thread = Thread::new(id, 1, entrypoint, stack_top, priority);
    thread.saved.regs[0] = arg;
    thread.saved.cpsr = (thread.saved.cpsr & !0x1F) | 0x1F;
    kernel.threads.push(thread);

    let handle = kernel.allocate_handle(HandleEntry::Thread(id));
    cpu.regs[1] = handle;
    cpu.regs[0] = RESULT_SUCCESS;
    kernel.needs_reschedule = true;
    proof {
        assert(thread@ =~= s_svc_create_thread(old(cpu)@, old(kernel)@).1.threads.last());
        assert(kernel@.threads =~= s_svc_create_thread(old(cpu)@, old(kernel)@).1.threads);
        assert(kernel@ =~= s_svc_create_thread(old(cpu)@, old(kernel)@).1);
        assert(cpu@ =~= s_svc_create_thread(old(cpu)@, old(kernel)@).0);
    }
}

/// ExitThread: the current thread dies and a reschedule is requested.
pub open spec fn s_svc_exit_thread(c: CpuSnap, k: KernelSnap) -> (CpuSnap, KernelSnap) {
    let k1 = if 0 <= k.current_thread < k.threads.len() {
        KernelSnap {
            threads: k.threads.update(k.current_thread, s_kill(k.threads[k.current_thread])),
            ..k
        }
    } else {
        k
    };
    (s_with_reg(c, 0, RESULT_SUCCESS), KernelSnap { needs_reschedule: true, ..k1 })
}

fn svc_exit_thread(cpu: &mut Cpu, kernel: &mut Kernel)
    requires
        old(cpu)@.wf(),
    ensures
        final(cpu)@ == s_svc_exit_thread(old(cpu)@, old(kernel)@).0,
        final(kernel)@ == s_svc_exit_thread(old(cpu)@, old(kernel)@).1,
        final(cpu)@.wf(),
{
    if kernel.current_thread < kernel.threads.len() {
        let cur = kernel.current_thread;
        let mut t = kernel.threads[cur];
        t.kill();
        kernel.threads[cur] = t;
    }
    cpu.regs[0] = RESULT_SUCCESS;
    kernel.needs_reschedule = true;
    proof {
        assert(kernel@ =~= s_svc_exit_thread(old(cpu)@, old(kernel)@).1);
        assert(cpu@ =~= s_svc_exit_thread(old(cpu)@, old(kernel)@).0);
    }
}

/// SleepThread: zero nanoseconds yields; anything else suspends the current
/// thread with the remaining time.  Both request a reschedule.
pub open spec fn s_svc_sleep_thread(c: CpuSnap, k: KernelSnap) -> (CpuSnap, KernelSnap) {
    let ns = ((c.regs[1] as u64) << 32u64) | (c.regs[0] as u64);
    if ns == 0 {
        (s_with_reg(c, 0, RESULT_SUCCESS), KernelSnap { needs_reschedule: true, ..k })
    } else {
        let k1 = if 0 <= k.current_thread < k.threads.len() {
            KernelSnap {
                threads: k.threads.update(
                    k.current_thread,
                    s_suspend_timed(k.threads[k.current_thread], WaitReason::Sleep(ns), ns),
                ),
                ..k
            }
        } else {
            k
        };
        (s_with_reg(c, 0, RESULT_SUCCESS), KernelSnap { needs_reschedule: true, ..k1 })
    }
}

fn svc_sleep_thread(cpu: &mut Cpu, kernel: &mut Kernel)
    requires
        old(cpu)@.wf(),
    ensures
        final(cpu)@ == s_svc_sleep_thread(old(cpu)@, old(kernel)@).0,
        final(kernel)@ == s_svc_sleep_thread(old(cpu)@, old(kernel)@).1,
        final(cpu)@.wf(),
{
    let ns_lo = cpu.regs[0];
    let ns_hi = cpu.regs[1];
    let ns = ((ns_hi as u64) << 32) | (ns_lo as u64);

    if ns == 0 {
        cpu.regs[0] = RESULT_SUCCESS;
        kernel.needs_reschedule = true;
        proof {
            assert(cpu@ =~= s_svc_sleep_thread(old(cpu)@, old(kernel)@).0);
            assert(kernel@ =~= s_svc_sleep_thread(old(cpu)@, old(kernel)@).1);
        }
        return ;
    }

    if kernel.current_thread < kernel.threads.len() {
        let cur = kernel.current_thread;
        let mut t = kernel.threads[cur];
        t.suspend_timed(WaitReason::Sleep(ns), ns);
        kernel.threads[cur] = t;
    }
    cpu.regs[0] = RESULT_SUCCESS;
    kernel.needs_reschedule = true;
    proof {
        assert(kernel@ =~= s_svc_sleep_thread(old(cpu)@, old(kernel)@).1);
        assert(cpu@ =~= s_svc_sleep_thread(old(cpu)@, old(kernel)@).0);
    }
}

/// GetThreadPriority: the pseudo-handle denotes the current thread; other
/// handles must name a live thread.
pub open spec fn s_svc_get_thread_priority(c: CpuSnap, k: KernelSnap) -> CpuSnap {
    let handle = c.regs[1];
    if handle == 0xFFFF8000u32 {
        if 0 <= k.current_thread < k.threads.len() {
            s_with_reg(
                s_with_reg(c, 1, k.threads[k.current_thread].priority as u32),
                0,
                RESULT_SUCCESS,
            )
        } else {
            s_with_reg(c, 0, RESULT_INVALID_HANDLE)
        }
    } else {
        match s_lookup(k.handles.entries, handle) {
            Some(HandleSnap::Thread(tid)) => {
                let i = s_thread_idx(k.threads, tid);
                if i < k.threads.len() {
                    s_with_reg(s_with_reg(c, 1, k.threads[i].priority as u32), 0, RESULT_SUCCESS)
                } else {
                    s_with_reg(c, 0, RESULT_INVALID_HANDLE)
                }
            },
            _ => s_with_reg(c, 0, RESULT_INVALID_HANDLE),
        }
    }
}

fn svc_get_thread_priority(cpu: &mut Cpu, kernel: &Kernel)
    requires
        old(cpu)@.wf(),
    ensures
        final(cpu)@ == s_svc_get_thread_priority(old(cpu)@, kernel@),
        final(cpu)@.wf(),
{
    let handle = cpu.regs[1];
    if handle == 0xFFFF8000 {
        if kernel.current_thread < kernel.threads.len() {
            let v = kernel.threads[kernel.current_thread].priority as u32;
            cpu.regs[1] = v;
            cpu.regs[0] = RESULT_SUCCESS;
        } else {
            cpu.regs[0] = RESULT_INVALID_HANDLE;
        }
        proof {
            assert(cpu@ =~= s_svc_get_thread_priority(old(cpu)@, kernel@));
        }
        return ;
    }
    let mut tid_opt: Option<u32> = None;
    match kernel.get_handle(handle) {
        Some(HandleEntry::Thread(tid)) => {
            tid_opt = Some(*tid);
        },
        _ => {},
    }
    match tid_opt {
        Some(tid) => {
            match kernel.find_thread(tid) {
                Some(i) => {
                    proof {
                        lemma_thread_idx_from_scan(kernel@.threads, tid, i as int);
                    }
                    let v = kernel.threads[i].priority as u32;
                    cpu.regs[1] = v;
                    cpu.regs[0] = RESULT_SUCCESS;
                },
                None => {
                    proof {
                        lemma_thread_idx_from_scan(
                            kernel@.threads,
                            tid,
                            kernel@.threads.len() as int,
                        );
                    }
                    cpu.regs[0] = RESULT_INVALID_HANDLE;
                },
            }
        },
        None => {
            cpu.regs[0] = RESULT_INVALID_HANDLE;
        },
    }
    proof {
        assert(cpu@ =~= s_svc_get_thread_priority(old(cpu)@, kernel@));
    }
}

/// SetThreadPriority, with the same handle resolution.
pub open spec fn s_svc_set_thread_priority(c: CpuSnap, k: KernelSnap) -> (CpuSnap, KernelSnap) {
    let handle = c.regs[0];
    let priority = c.regs[1] as i32;
    if handle == 0xFFFF8000u32 {
        if 0 <= k.current_thread < k.threads.len() {
            (
                s_with_reg(c, 0, RESULT_SUCCESS),
                KernelSnap {
                    threads: k.threads.update(
                        k.current_thread,
                        ThreadSnap { priority, ..k.threads[k.current_thread] },
                    ),
                    ..k
                },
            )
        } else {
            (s_with_reg(c, 0, RESULT_INVALID_HANDLE), k)
        }
    } else {
        match s_lookup(k.handles.entries, handle) {
            Some(HandleSnap::Thread(tid)) => {
                let i = s_thread_idx(k.threads, tid);
                if i < k.threads.len() {
                    (
                        s_with_reg(c, 0, RESULT_SUCCESS),
                        KernelSnap {
                            threads: k.threads.update(i, ThreadSnap { priority, ..k.threads[i] }),
                            ..k
                        },
                    )
                } else {
                    (s_with_reg(c, 0, RESULT_INVALID_HANDLE), k)
                }
            },
            _ => (s_with_reg(c, 0, RESULT_INVALID_HANDLE), k),
        }
    }
}

fn svc_set_thread_priority(cpu: &mut Cpu, kernel: &mut Kernel)
    requires
        old(cpu)@.wf(),
    ensures
        final(cpu)@ == s_svc_set_thread_priority(old(cpu)@, old(kernel)@).0,
        final(kernel)@ == s_svc_set_thread_priority(old(cpu)@, old(kernel)@).1,
        final(cpu)@.wf(),
{
    let handle = cpu.regs[0];
    let priority = cpu.regs[1] as i32;
    if handle == 0xFFFF8000 {
        if kernel.current_thread < kernel.threads.len() {
            let cur = kernel.current_thread;
            let mut t = kernel.threads[cur];
            t.priority = priority;
            kernel.threads[cur] = t;
            cpu.regs[0] = RESULT_SUCCESS;
        } else {
            cpu.regs[0] = RESULT_INVALID_HANDLE;
        }
        proof {
            assert(kernel@ =~= s_svc_set_thread_priority(old(cpu)@, old(kernel)@).1);
            assert(cpu@ =~= s_svc_set_thread_priority(old(cpu)@, old(kernel)@).0);
        }
        return ;
    }
    let mut tid_opt: Option<u32> = None;
    match kernel.get_handle(handle) {
        Some(HandleEntry::Thread(tid)) => {
            tid_opt = Some(*tid);
        },
        _ => {},
    }
    match tid_opt {
        Some(tid) => {
            match kernel.find_thread(tid) {
                Some(i) => {
                    proof {
                        lemma_thread_idx_from_scan(kernel@.threads, tid, i as int);
                    }
                    let mut t = kernel.threads[i];
                    t.priority = priority;
                    kernel.threads[i] = t;
                    cpu.regs[0] = RESULT_SUCCESS;
                },
                None => {
                    proof {
                        lemma_thread_idx_from_scan(
                            kernel@.threads,
                            tid,
                            kernel@.threads.len() as int,
                        );
                    }
                    cpu.regs[0] = RESULT_INVALID_HANDLE;
                },
            }
        },
        None => {
            cpu.regs[0] = RESULT_INVALID_HANDLE;
        },
    }
    proof {
        assert(kernel@ =~= s_svc_set_thread_priority(old(cpu)@, old(kernel)@).1);
        assert(cpu@ =~= s_svc_set_thread_priority(old(cpu)@, old(kernel)@).0);
    }
}

/// CreateMutex: a fresh mutex, optionally held by the caller.
pub open spec fn s_svc_create_mutex(c: CpuSnap, k: KernelSnap) -> (CpuSnap, KernelSnap) {
    let initially_locked = c.regs[1] != 0;
    let id = k.next_thread_id;
    let k1 = KernelSnap { next_thread_id: s_sat_inc(k.next_thread_id), ..k };
    let owner: Option<u32> = if initially_locked && 0 <= k1.current_thread < k1.threads.len() {
        Some(k1.threads[k1.current_thread].id)
    } else {
        None
    };
    let obj = SyncSnap::Mutex {
        owner,
        lock_count: if owner is Some { 1u32 } else { 0u32 },
        waiting: Seq::empty(),
    };
    let k2 = KernelSnap { sync_objects: s_store(k1.sync_objects, id, obj), ..k1 };
    let (k3, handle) = s_alloc_handle(k2, HandleSnap::Mutex(id));
    (s_with_reg(s_with_reg(c, 1, handle), 0, RESULT_SUCCESS), k3)
}

fn svc_create_mutex(cpu: &mut Cpu, kernel: &mut Kernel)
    requires
        old(cpu)@.wf(),
    ensures
        final(cpu)@ == s_svc_create_mutex(old(cpu)@, old(kernel)@).0,
        final(kernel)@ == s_svc_create_mutex(old(cpu)@, old(kernel)@).1,
        final(cpu)@.wf(),
{
    let initially_locked = cpu.regs[1] != 0;
    let id = kernel.alloc_sync_id();
    let mut state = MutexState::new();
    if initially_locked && kernel.current_thread < kernel.threads.len() {
        state.owner_thread = Some(kernel.threads[kernel.current_thread].id);
        state.lock_count = 1;
    }
    sync_store(kernel, id, SyncObject::Mutex(state));
    let handle = kernel.allocate_handle(HandleEntry::Mutex(id));
    cpu.regs[1] = handle;
    cpu.regs[0] = RESULT_SUCCESS;
    proof {
        assert(kernel@ =~= s_svc_create_mutex(old(cpu)@, old(kernel)@).1);
        assert(cpu@ =~= s_svc_create_mutex(old(cpu)@, old(kernel)@).0);
    }
}

/// ReleaseMutex: release on behalf of the current thread (id 0 when there is
/// none) and hand off to the head waiter.
pub open spec fn s_svc_release_mutex(c: CpuSnap, k: KernelSnap) -> (CpuSnap, KernelSnap) {
    match s_lookup(k.handles.entries, c.regs[0]) {
        Some(HandleSnap::Mutex(sync_id)) => {
            let tid = match s_cur_tid(k) {
                Some(t) => t,
                None => 0u32,
            };
            (s_with_reg(c, 0, RESULT_SUCCESS), s_k_release(k, sync_id, tid))
        },
        _ => (s_with_reg(c, 0, RESULT_INVALID_HANDLE), k),
    }
}

fn svc_release_mutex(cpu: &mut Cpu, kernel: &mut Kernel)
    requires
        old(cpu)@.wf(),
    ensures
        final(cpu)@ == s_svc_release_mutex(old(cpu)@, old(kernel)@).0,
        final(kernel)@ == s_svc_release_mutex(old(cpu)@, old(kernel)@).1,
        final(cpu)@.wf(),
{
    let handle = cpu.regs[0];
    let mut id_opt: Option<u32> = None;
    match kernel.get_handle(handle) {
        Some(HandleEntry::Mutex(sync_id)) => {
            id_opt = Some(*sync_id);
        },
        _ => {},
    }
    match id_opt {
        Some(sync_id) => {
            let thread_id = if kernel.current_thread < kernel.threads.len() {
                kernel.threads[kernel.current_thread].id
            } else {
                0
            };
            k_release(kernel, sync_id, thread_id);
            cpu.regs[0] = RESULT_SUCCESS;
        },
        None => {
            cpu.regs[0] = RESULT_INVALID_HANDLE;
        },
    }
    proof {
        assert(cpu@ =~= s_svc_release_mutex(old(cpu)@, old(kernel)@).0);
    }
}

/// CreateSemaphore from an initial and a maximum count.
pub open spec fn s_svc_create_semaphore(c: CpuSnap, k: KernelSnap) -> (CpuSnap, KernelSnap) {
    let initial = c.regs[1] as i32;
    let max = c.regs[2] as i32;
    let id = k.next_thread_id;
    let k1 = KernelSnap { next_thread_id: s_sat_inc(k.next_thread_id), ..k };
    let obj = SyncSnap::Semaphore { count: initial, max, waiting: Seq::empty() };
    let k2 = KernelSnap { sync_objects: s_store(k1.sync_objects, id, obj), ..k1 };
    let (k3, handle) = s_alloc_handle(k2, HandleSnap::Semaphore(id));
    (s_with_reg(s_with_reg(c, 1, handle), 0, RESULT_SUCCESS), k3)
}

fn svc_create_semaphore(cpu: &mut Cpu, kernel: &mut Kernel)
    requires
        old(cpu)@.wf(),
    ensures
        final(cpu)@ == s_svc_create_semaphore(old(cpu)@, old(kernel)@).0,
        final(kernel)@ == s_svc_create_semaphore(old(cpu)@, old(kernel)@).1,
        final(cpu)@.wf(),
{
    let initial = cpu.regs[1] as i32;
    let max = cpu.regs[2] as i32;
    let id = kernel.alloc_sync_id();
    sync_store(kernel, id, SyncObject::Semaphore(SemaphoreState::new(initial, max)));
    let handle = kernel.allocate_handle(HandleEntry::Semaphore(id));
    cpu.regs[1] = handle;
    cpu.regs[0] = RESULT_SUCCESS;
    proof {
        assert(kernel@ =~= s_svc_create_semaphore(old(cpu)@, old(kernel)@).1);
        assert(cpu@ =~= s_svc_create_semaphore(old(cpu)@, old(kernel)@).0);
    }
}

/// Releasing a semaphore `n` times, waking at each step.
pub open spec fn s_k_release_n(k: KernelSnap, sync_id: u32, tid: u32, n: nat) -> KernelSnap
    decreases n,
{
    if n == 0 {
        k
    } else {
        s_k_release_n(s_k_release(k, sync_id, tid), sync_id, tid, (n - 1) as nat)
    }
}

/// ReleaseSemaphore: R2 release steps; R1 receives the count seen before.
pub open spec fn s_svc_release_semaphore(c: CpuSnap, k: KernelSnap) -> (CpuSnap, KernelSnap) {
    match s_lookup(k.handles.entries, c.regs[1]) {
        Some(HandleSnap::Semaphore(sync_id)) => {
            let count = c.regs[2] as i32;
            let tid = match s_cur_tid(k) {
                Some(t) => t,
                None => 0u32,
            };
            let prev: i32 = match s_lookup(k.sync_objects, sync_id) {
                Some(SyncSnap::Semaphore { count: pc, .. }) => pc,
                _ => 0,
            };
            let k1 = s_k_release_n(k, sync_id, tid, if count > 0 { count as nat } else { 0nat });
            (s_with_reg(s_with_reg(c, 1, prev as u32), 0, RESULT_SUCCESS), k1)
        },
        _ => (s_with_reg(c, 0, RESULT_INVALID_HANDLE), k),
    }
}

fn svc_release_semaphore(cpu: &mut Cpu, kernel: &mut Kernel)
    requires
        old(cpu)@.wf(),
    ensures
        final(cpu)@ == s_svc_release_semaphore(old(cpu)@, old(kernel)@).0,
        final(kernel)@ == s_svc_release_semaphore(old(cpu)@, old(kernel)@).1,
        final(cpu)@.wf(),
{
    let handle = cpu.regs[1];
    let count = cpu.regs[2] as i32;
    let mut id_opt: Option<u32> = None;
    match kernel.get_handle(handle) {
        Some(HandleEntry::Semaphore(sync_id)) => {
            id_opt = Some(*sync_id);
        },
        _ => {},
    }
    match id_opt {
        Some(sync_id) => {
            let thread_id = if kernel.current_thread < kernel.threads.len() {
                kernel.threads[kernel.current_thread].id
            } else {
                0
            };
            let mut prev: i32 = 0;
            match sync_index(kernel, sync_id) {
                Some(i) => {
                    match &kernel.sync_objects[i].1 {
                        SyncObject::Semaphore(s) => {
                            prev = s.count;
                        },
                        _ => {},
                    }
                },
                None => {},
            }
            let ghost total = if count > 0 { count as nat } else { 0nat };
            let mut i: i32 = 0;
            while i < count
                invariant
                    0 <= i,
                    count > 0 ==> i <= count,
                    count <= 0 ==> i == 0,
                    total == (if count > 0 { count as nat } else { 0nat }),
                    s_k_release_n(old(kernel)@, sync_id, thread_id, total) == s_k_release_n(
                        kernel@,
                        sync_id,
                        thread_id,
                        (total - i) as nat,
                    ),
                decreases count - i,
            {
                let ghost kprev = kernel@;
                k_release(kernel, sync_id, thread_id);
                proof {
                    assert(total == count);
                    assert(total - i > 0);
                    assert(s_k_release_n(kprev, sync_id, thread_id, (total - i) as nat)
                        == s_k_release_n(
                        s_k_release(kprev, sync_id, thread_id),
                        sync_id,
                        thread_id,
                        (total - (i + 1)) as nat,
                    ));
                }
                i = i + 1;
            }
            cpu.regs[1] = prev as u32;
            cpu.regs[0] = RESULT_SUCCESS;
            proof {
                assert(kernel@ =~= s_svc_release_semaphore(old(cpu)@, old(kernel)@).1);
                assert(cpu@ =~= s_svc_release_semaphore(old(cpu)@, old(kernel)@).0);
            }
        },
        None => {
            cpu.regs[0] = RESULT_INVALID_HANDLE;
            proof {
                assert(cpu@ =~= s_svc_release_semaphore(old(cpu)@, old(kernel)@).0);
            }
        },
    }
}

/// CreateEvent with the reset discipline from R1.
pub open spec fn s_svc_create_event(c: CpuSnap, k: KernelSnap) -> (CpuSnap, KernelSnap) {
    let reset: ResetType = if c.regs[1] == 0 {
        ResetType::OneShot
    } else if c.regs[1] == 1 {
        ResetType::Sticky
    } else {
        ResetType::Pulse
    };
    let id = k.next_thread_id;
    let k1 = KernelSnap { next_thread_id: s_sat_inc(k.next_thread_id), ..k };
    let obj = SyncSnap::Event { signaled: false, reset, waiting: Seq::empty() };
    let k2 = KernelSnap { sync_objects: s_store(k1.sync_objects, id, obj), ..k1 };
    let (k3, handle) = s_alloc_handle(k2, HandleSnap::Event(id));
    (s_with_reg(s_with_reg(c, 1, handle), 0, RESULT_SUCCESS), k3)
}

fn svc_create_event(cpu: &mut Cpu, kernel: &mut Kernel)
    requires
        old(cpu)@.wf(),
    ensures
        final(cpu)@ == s_svc_create_event(old(cpu)@, old(kernel)@).0,
        final(kernel)@ == s_svc_create_event(old(cpu)@, old(kernel)@).1,
        final(cpu)@.wf(),
{
    let reset_type = if cpu.regs[1] == 0 {
        ResetType::OneShot
    } else if cpu.regs[1] == 1 {
        ResetType::Sticky
    } else {
        ResetType::Pulse
    };
    let id = kernel.alloc_sync_id();
    sync_store(kernel, id, SyncObject::Event(EventState::new(reset_type)));
    let handle = kernel.allocate_handle(HandleEntry::Event(id));
    cpu.regs[1] = handle;
    cpu.regs[0] = RESULT_SUCCESS;
    proof {
        assert(kernel@ =~= s_svc_create_event(old(cpu)@, old(kernel)@).1);
        assert(cpu@ =~= s_svc_create_event(old(cpu)@, old(kernel)@).0);
    }
}

/// SignalEvent: the release transition on behalf of no thread.
pub open spec fn s_svc_signal_event(c: CpuSnap, k: KernelSnap) -> (CpuSnap, KernelSnap) {
    match s_lookup(k.handles.entries, c.regs[0]) {
        Some(HandleSnap::Event(sync_id)) => (
            s_with_reg(c, 0, RESULT_SUCCESS),
            s_k_release(k, sync_id, 0),
        ),
        _ => (s_with_reg(c, 0, RESULT_INVALID_HANDLE), k),
    }
}

fn svc_signal_event(cpu: &mut Cpu, kernel: &mut Kernel)
    requires
        old(cpu)@.wf(),
    ensures
        final(cpu)@ == s_svc_signal_event(old(cpu)@, old(kernel)@).0,
        final(kernel)@ == s_svc_signal_event(old(cpu)@, old(kernel)@).1,
        final(cpu)@.wf(),
{
    let handle = cpu.regs[0];
    let mut id_opt: Option<u32> = None;
    match kernel.get_handle(handle) {
        Some(HandleEntry::Event(sync_id)) => {
            id_opt = Some(*sync_id);
        },
        _ => {},
    }
    match id_opt {
        Some(sync_id) => {
            k_release(kernel, sync_id, 0);
            cpu.regs[0] = RESULT_SUCCESS;
        },
        None => {
            cpu.regs[0] = RESULT_INVALID_HANDLE;
        },
    }
    proof {
        assert(cpu@ =~= s_svc_signal_event(old(cpu)@, old(kernel)@).0);
    }
}

/// ClearEvent.
pub open spec fn s_svc_clear_event(c: CpuSnap, k: KernelSnap) -> (CpuSnap, KernelSnap) {
    match s_lookup(k.handles.entries, c.regs[0]) {
        Some(HandleSnap::Event(sync_id)) => {
            let k1 = match s_lookup(k.sync_objects, sync_id) {
                Some(o) => KernelSnap {
                    sync_objects: s_store(k.sync_objects, sync_id, s_clear_event(o)),
                    ..k
                },
                None => k,
            };
            (s_with_reg(c, 0, RESULT_SUCCESS), k1)
        },
        _ => (s_with_reg(c, 0, RESULT_INVALID_HANDLE), k),
    }
}

fn svc_clear_event(cpu: &mut Cpu, kernel: &mut Kernel)
    requires
        old(cpu)@.wf(),
    ensures
        final(cpu)@ == s_svc_clear_event(old(cpu)@, old(kernel)@).0,
        final(kernel)@ == s_svc_clear_event(old(cpu)@, old(kernel)@).1,
        final(cpu)@.wf(),
{
    let handle = cpu.regs[0];
    let mut id_opt: Option<u32> = None;
    match kernel.get_handle(handle) {
        Some(HandleEntry::Event(sync_id)) => {
            id_opt = Some(*sync_id);
        },
        _ => {},
    }
    match id_opt {
        Some(sync_id) => {
            match sync_index(kernel, sync_id) {
                Some(i) => {
                    let (key, mut obj) = kernel.sync_objects.remove(i);
                    sync::clear_event(&mut obj);
                    kernel.sync_objects.insert(i, (key, obj));
                    proof {
                        assert(kernel@.sync_objects =~= s_store(
                            old(kernel)@.sync_objects,
                            sync_id,
                            s_clear_event(
                                s_lookup(old(kernel)@.sync_objects, sync_id)->Some_0,
                            ),
                        ));
                    }
                },
                None => {},
            }
            cpu.regs[0] = RESULT_SUCCESS;
        },
        None => {
            cpu.regs[0] = RESULT_INVALID_HANDLE;
        },
    }
    proof {
        assert(kernel@ =~= s_svc_clear_event(old(cpu)@, old(kernel)@).1);
        assert(cpu@ =~= s_svc_clear_event(old(cpu)@, old(kernel)@).0);
    }
}

/// CreateTimer: timing is approximate; the handle is all a guest needs.
pub open spec fn s_svc_create_timer(c: CpuSnap, k: KernelSnap) -> (CpuSnap, KernelSnap) {
    let (k1, handle) = s_alloc_handle(k, HandleSnap::Timer);
    (s_with_reg(s_with_reg(c, 1, handle), 0, RESULT_SUCCESS), k1)
}

fn svc_create_timer(cpu: &mut Cpu, kernel: &mut Kernel)
    requires
        old(cpu)@.wf(),
    ensures
        final(cpu)@ == s_svc_create_timer(old(cpu)@, old(kernel)@).0,
        final(kernel)@ == s_svc_create_timer(old(cpu)@, old(kernel)@).1,
        final(cpu)@.wf(),
{
    let handle = kernel.allocate_handle(HandleEntry::Timer);
    cpu.regs[1] = handle;
    cpu.regs[0] = RESULT_SUCCESS;
    proof {
        assert(cpu@ =~= s_svc_create_timer(old(cpu)@, old(kernel)@).0);
    }
}

/// CreateMemoryBlock: allocate backing store when no address is supplied.
pub open spec fn s_svc_create_memory_block(c: CpuSnap, k: KernelSnap, m: MemSnap) -> (
    CpuSnap,
    KernelSnap,
    MemSnap,
) {
    let addr = c.regs[1];
    let size = c.regs[2];
    let eff = if size < 0x1000 { 0x1000u32 } else { size };
    let base = if addr == 0 { m.heap_end } else { addr };
    let m1 = if addr == 0 {
        MemSnap { heap_end: m.heap_end.wrapping_add(s_page_align(eff)), ..m }
    } else {
        m
    };
    let (k1, handle) = s_alloc_handle(k, HandleSnap::SharedMemory(base, size));
    (s_with_reg(s_with_reg(c, 1, handle), 0, RESULT_SUCCESS), k1, m1)
}

fn svc_create_memory_block(cpu: &mut Cpu, kernel: &mut Kernel, mem: &mut Memory)
    requires
        old(cpu)@.wf(),
    ensures
        final(cpu)@ == s_svc_create_memory_block(old(cpu)@, old(kernel)@, old(mem)@).0,
        final(kernel)@ == s_svc_create_memory_block(old(cpu)@, old(kernel)@, old(mem)@).1,
        final(mem)@ == s_svc_create_memory_block(old(cpu)@, old(kernel)@, old(mem)@).2,
        final(cpu)@.wf(),
{
    let addr = cpu.regs[1];
    let size = cpu.regs[2];
    let eff = if size < 0x1000 { 0x1000 } else { size };
    let base = if addr == 0 { mem.alloc_heap(eff) } else { addr };
    let handle = kernel.allocate_handle(HandleEntry::SharedMemory(base, size));
    cpu.regs[1] = handle;
    cpu.regs[0] = RESULT_SUCCESS;
    proof {
        assert(cpu@ =~= s_svc_create_memory_block(old(cpu)@, old(kernel)@, old(mem)@).0);
        assert(mem@ =~= s_svc_create_memory_block(old(cpu)@, old(kernel)@, old(mem)@).2);
    }
}

/// MapMemoryBlock is acknowledged without further effect.
pub open spec fn s_svc_map_memory_block(c: CpuSnap) -> CpuSnap {
    s_with_reg(c, 0, RESULT_SUCCESS)
}

fn svc_map_memory_block(cpu: &mut Cpu)
    requires
        old(cpu)@.wf(),
    ensures
        final(cpu)@ == s_svc_map_memory_block(old(cpu)@),
        final(cpu)@.wf(),
{
    cpu.regs[0] = RESULT_SUCCESS;
    proof {
        assert(cpu@ =~= s_svc_map_memory_block(old(cpu)@));
    }
}

/// CloseHandle always succeeds; closing an absent handle is harmless.
pub open spec fn s_svc_close_handle(c: CpuSnap, k: KernelSnap) -> (CpuSnap, KernelSnap) {
    (
        s_with_reg(c, 0, RESULT_SUCCESS),
        KernelSnap { handles: s_table_close(k.handles, c.regs[0]).0, ..k },
    )
}

fn svc_close_handle(cpu: &mut Cpu, kernel: &mut Kernel)
    requires
        old(cpu)@.wf(),
    ensures
        final(cpu)@ == s_svc_close_handle(old(cpu)@, old(kernel)@).0,
        final(kernel)@ == s_svc_close_handle(old(cpu)@, old(kernel)@).1,
        final(cpu)@.wf(),
{
    let handle = cpu.regs[0];
    kernel.close_handle(handle);
    cpu.regs[0] = RESULT_SUCCESS;
    proof {
        assert(cpu@ =~= s_svc_close_handle(old(cpu)@, old(kernel)@).0);
    }
}

/// WaitSynchronization on one handle: Session, Timer and Thread handles (and
/// anything unwaitable or unknown) are treated as immediately signaled;
/// Mutex, Semaphore and Event handles run the acquire transition, suspending
/// the caller with the matching wait reason on contention.
pub open spec fn s_svc_wait_sync1(c: CpuSnap, k: KernelSnap) -> (CpuSnap, KernelSnap) {
    let handle = c.regs[0];
    match s_lookup(k.handles.entries, handle) {
        Some(HandleSnap::Mutex(sync_id)) => s_wait1_on(c, k, handle, sync_id, WaitReason::Mutex(handle)),
        Some(HandleSnap::Semaphore(sync_id)) => s_wait1_on(
            c,
            k,
            handle,
            sync_id,
            WaitReason::Semaphore(handle),
        ),
        Some(HandleSnap::Event(sync_id)) => s_wait1_on(c, k, handle, sync_id, WaitReason::Event(handle)),
        _ => (s_with_reg(c, 0, RESULT_SUCCESS), k),
    }
}

/// The waitable-handle arm of WaitSynchronization.
pub open spec fn s_wait1_on(
    c: CpuSnap,
    k: KernelSnap,
    handle: u32,
    sync_id: u32,
    reason: WaitReason,
) -> (CpuSnap, KernelSnap) {
    if !(0 <= k.current_thread < k.threads.len()) {
        (s_with_reg(c, 0, RESULT_SUCCESS), k)
    } else {
        let tid = k.threads[k.current_thread].id;
        match s_lookup(k.sync_objects, sync_id) {
            Some(o) => {
                let k1 = s_k_acquire(k, sync_id, tid).0;
                match s_acquire(o, tid).1 {
                    AcquireResult::Success => (s_with_reg(c, 0, RESULT_SUCCESS), k1),
                    AcquireResult::WouldBlock => (
                        s_with_reg(c, 0, RESULT_SUCCESS),
                        KernelSnap {
                            threads: k1.threads.update(
                                k1.current_thread,
                                s_suspend(k1.threads[k1.current_thread], reason),
                            ),
                            needs_reschedule: true,
                            ..k1
                        },
                    ),
                    AcquireResult::InvalidObject => (
                        s_with_reg(c, 0, RESULT_INVALID_HANDLE),
                        k1,
                    ),
                }
            },
            None => (s_with_reg(c, 0, RESULT_INVALID_HANDLE), k),
        }
    }
}

fn svc_wait_synchronization1(cpu: &mut Cpu, kernel: &mut Kernel)
    requires
        old(cpu)@.wf(),
    ensures
        final(cpu)@ == s_svc_wait_sync1(old(cpu)@, old(kernel)@).0,
        final(kernel)@ == s_svc_wait_sync1(old(cpu)@, old(kernel)@).1,
        final(cpu)@.wf(),
{
    let handle = cpu.regs[0];

    let mut kind: u32 = 0;
    let mut sync_id: u32 = 0;
    match kernel.get_handle(handle) {
        Some(HandleEntry::Mutex(id)) => {
            kind = 1;
            sync_id = *id;
        },
        Some(HandleEntry::Semaphore(id)) => {
            kind = 2;
            sync_id = *id;
        },
        Some(HandleEntry::Event(id)) => {
            kind = 3;
            sync_id = *id;
        },
        _ => {},
    }
    if kind == 0 {
        cpu.regs[0] = RESULT_SUCCESS;
        proof {
            assert(cpu@ =~= s_svc_wait_sync1(old(cpu)@, old(kernel)@).0);
        }
        return ;
    }
    let reason = if kind == 1 {
        WaitReason::Mutex(handle)
    } else if kind == 2 {
        WaitReason::Semaphore(handle)
    } else {
        WaitReason::Event(handle)
    };

    if !(kernel.current_thread < kernel.threads.len()) {
        cpu.regs[0] = RESULT_SUCCESS;
        proof {
            assert(cpu@ =~= s_svc_wait_sync1(old(cpu)@, old(kernel)@).0);
        }
        return ;
    }
    let thread_id = kernel.threads[kernel.current_thread].id;

    match k_acquire(kernel, sync_id, thread_id) {
        Some(res) => {
            match res {
                AcquireResult::Success => {
                    cpu.regs[0] = RESULT_SUCCESS;
                },
                AcquireResult::WouldBlock => {
                    let cur = kernel.current_thread;
                    let mut t = kernel.threads[cur];
                    t.suspend(reason);
                    kernel.threads[cur] = t;
                    cpu.regs[0] = RESULT_SUCCESS;
                    kernel.needs_reschedule = true;
                },
                AcquireResult::InvalidObject => {
                    cpu.regs[0] = RESULT_INVALID_HANDLE;
                },
            }
        },
        None => {
            cpu.regs[0] = RESULT_INVALID_HANDLE;
        },
    }
    proof {
        assert(kernel@ =~= s_svc_wait_sync1(old(cpu)@, old(kernel)@).1);
        assert(cpu@ =~= s_svc_wait_sync1(old(cpu)@, old(kernel)@).0);
    }
}

/// The scan of WaitSynchronizationN: the first handle that is immediately
/// signaled (Session/Timer/Thread) or successfully acquired wins; contended
/// objects still record the caller in their wait queues.
pub open spec fn s_waitn_loop(m: MemSnap, k: KernelSnap, ptr: u32, count: u32, i: u32) -> (
    KernelSnap,
    Option<u32>,
)
    decreases count - i,
{
    if i >= count {
        (k, None)
    } else {
        let handle = s_mem_read32(m, ptr.wrapping_add(i.wrapping_mul(4)));
        let entry = s_lookup(k.handles.entries, handle);
        let immediate = match entry {
            Some(HandleSnap::Session(n)) => true,
            Some(HandleSnap::Timer) => true,
            Some(HandleSnap::Thread(t)) => true,
            _ => false,
        };
        let sync_id_opt: Option<u32> = match entry {
            Some(HandleSnap::Mutex(id)) => Some(id),
            Some(HandleSnap::Semaphore(id)) => Some(id),
            Some(HandleSnap::Event(id)) => Some(id),
            _ => None,
        };
        if immediate {
            (k, Some(i))
        } else if sync_id_opt is None {
            s_waitn_loop(m, k, ptr, count, (i + 1) as u32)
        } else if !(0 <= k.current_thread < k.threads.len()) {
            s_waitn_loop(m, k, ptr, count, (i + 1) as u32)
        } else {
            let sync_id = sync_id_opt->Some_0;
            let tid = k.threads[k.current_thread].id;
            match s_lookup(k.sync_objects, sync_id) {
                Some(o) => {
                    let k1 = s_k_acquire(k, sync_id, tid).0;
                    if s_acquire(o, tid).1 == AcquireResult::Success {
                        (k1, Some(i))
                    } else {
                        s_waitn_loop(m, k1, ptr, count, (i + 1) as u32)
                    }
                },
                None => s_waitn_loop(m, k, ptr, count, (i + 1) as u32),
            }
        }
    }
}

/// WaitSynchronizationN: any-of semantics; with nothing immediately
/// acquirable the caller suspends with the SyncMultiple reason.
pub open spec fn s_svc_wait_sync_n(c: CpuSnap, m: MemSnap, k: KernelSnap) -> (CpuSnap, KernelSnap) {
    let ptr = c.regs[1];
    let count = c.regs[2];
    let scan = s_waitn_loop(m, k, ptr, count, 0);
    match scan.1 {
        Some(i) => (s_with_reg(s_with_reg(c, 1, i), 0, RESULT_SUCCESS), scan.0),
        None => {
            let k1 = scan.0;
            let k2 = if 0 <= k1.current_thread < k1.threads.len() {
                KernelSnap {
                    threads: k1.threads.update(
                        k1.current_thread,
                        s_suspend(k1.threads[k1.current_thread], WaitReason::SyncMultiple),
                    ),
                    needs_reschedule: true,
                    ..k1
                }
            } else {
                k1
            };
            (s_with_reg(s_with_reg(c, 1, 0), 0, RESULT_SUCCESS), k2)
        },
    }
}

fn svc_wait_synchronization_n(cpu: &mut Cpu, mem: &Memory, kernel: &mut Kernel)
    requires
        old(cpu)@.wf(),
        mem@.wf(),
    ensures
        final(cpu)@ == s_svc_wait_sync_n(old(cpu)@, mem@, old(kernel)@).0,
        final(kernel)@ == s_svc_wait_sync_n(old(cpu)@, mem@, old(kernel)@).1,
        final(cpu)@.wf(),
{
    let handles_ptr = cpu.regs[1];
    let count = cpu.regs[2];

    let mut i: u32 = 0;
    while i < count
        invariant
            i <= count,
            cpu@ == old(cpu)@,
            cpu@.wf(),
            mem@.wf(),
            handles_ptr == old(cpu)@.regs[1],
            count == old(cpu)@.regs[2],
            s_waitn_loop(mem@, old(kernel)@, handles_ptr, count, 0) == s_waitn_loop(
                mem@,
                kernel@,
                handles_ptr,
                count,
                i,
            ),
        decreases count - i,
    {
        let handle = mem.read32(handles_ptr.wrapping_add(i.wrapping_mul(4)));

        let mut kind: u32 = 0;
        let mut sync_id: u32 = 0;
        match kernel.get_handle(handle) {
            Some(HandleEntry::Session(_)) => {
                kind = 4;
            },
            Some(HandleEntry::Timer) => {
                kind = 4;
            },
            Some(HandleEntry::Thread(_)) => {
                kind = 4;
            },
            Some(HandleEntry::Mutex(id)) => {
                kind = 1;
                sync_id = *id;
            },
            Some(HandleEntry::Semaphore(id)) => {
                kind = 2;
                sync_id = *id;
            },
            Some(HandleEntry::Event(id)) => {
                kind = 3;
                sync_id = *id;
            },
            _ => {},
        }

        if kind == 4 {
            cpu.regs[1] = i;
            cpu.regs[0] = RESULT_SUCCESS;
            proof {
                assert(s_waitn_loop(mem@, kernel@, handles_ptr, count, i) == (
                    kernel@,
                    Some(i),
                ));
                assert(handles_ptr == old(cpu)@.regs[1]);
                assert(count == old(cpu)@.regs[2]);
                assert(kernel@ =~= s_svc_wait_sync_n(old(cpu)@, mem@, old(kernel)@).1);
                assert(cpu@ =~= s_svc_wait_sync_n(old(cpu)@, mem@, old(kernel)@).0);
            }
            return ;
        }
        let ghost kprev = kernel@;
        if kind == 0 {
            proof {
                assert(s_waitn_loop(mem@, kprev, handles_ptr, count, i) == s_waitn_loop(
                    mem@,
                    kernel@,
                    handles_ptr,
                    count,
                    (i + 1) as u32,
                ));
            }
        } else {
            if kernel.current_thread < kernel.threads.len() {
                let thread_id = kernel.threads[kernel.current_thread].id;
                match k_acquire(kernel, sync_id, thread_id) {
                    Some(res) => {
                        if matches!(res, AcquireResult::Success) {
                            cpu.regs[1] = i;
                            cpu.regs[0] = RESULT_SUCCESS;
                            proof {
                                assert(s_waitn_loop(mem@, kprev, handles_ptr, count, i) == (
                                    kernel@,
                                    Some(i),
                                ));
                                assert(kernel@ =~= s_svc_wait_sync_n(
                                    old(cpu)@,
                                    mem@,
                                    old(kernel)@,
                                ).1);
                                assert(cpu@ =~= s_svc_wait_sync_n(
                                    old(cpu)@,
                                    mem@,
                                    old(kernel)@,
                                ).0);
                            }
                            return ;
                        }
                        proof {
                            assert(s_waitn_loop(mem@, kprev, handles_ptr, count, i)
                                == s_waitn_loop(
                                mem@,
                                kernel@,
                                handles_ptr,
                                count,
                                (i + 1) as u32,
                            ));
                        }
                    },
                    None => {
                        proof {
                            assert(s_waitn_loop(mem@, kprev, handles_ptr, count, i)
                                == s_waitn_loop(
                                mem@,
                                kernel@,
                                handles_ptr,
                                count,
                                (i + 1) as u32,
                            ));
                        }
                    },
                }
            } else {
                proof {
                    assert(s_waitn_loop(mem@, kprev, handles_ptr, count, i) == s_waitn_loop(
                        mem@,
                        kernel@,
                        handles_ptr,
                        count,
                        (i + 1) as u32,
                    ));
                }
            }
        }
        i = i + 1;
    }

    if kernel.current_thread < kernel.threads.len() {
        let cur = kernel.current_thread;
        let mut t = kernel.threads[cur];
        t.suspend(WaitReason::SyncMultiple);
        kernel.threads[cur] = t;
        kernel.needs_reschedule = true;
    }
    cpu.regs[1] = 0;
    cpu.regs[0] = RESULT_SUCCESS;
    proof {
        assert(kernel@ =~= s_svc_wait_sync_n(old(cpu)@, mem@, old(kernel)@).1);
        assert(cpu@ =~= s_svc_wait_sync_n(old(cpu)@, mem@, old(kernel)@).0);
    }
}


/// The scan of WaitSynchronizationN stops at a session handle: when the
/// handles before index `idx` are unbound and index `idx` names a session,
/// the call returns Success with R1 = `idx`, touching neither the kernel nor
/// any thread state.
pub proof fn lemma_waitn_session_immediate(c: CpuSnap, m: MemSnap, k: KernelSnap, idx: u32)
    requires
        idx < c.regs[2],
        forall|j: u32|
            j < idx ==> s_lookup(
                #[trigger] k.handles.entries,
                s_mem_read32(m, c.regs[1].wrapping_add(j.wrapping_mul(4))),
            ) is None,
        s_lookup(
            k.handles.entries,
            s_mem_read32(m, c.regs[1].wrapping_add(idx.wrapping_mul(4))),
        ) matches Some(HandleSnap::Session(n)),
    ensures
        s_svc_wait_sync_n(c, m, k).1 == k,
        s_svc_wait_sync_n(c, m, k).0 == s_with_reg(s_with_reg(c, 1, idx), 0, RESULT_SUCCESS),
{
    lemma_waitn_scan_reaches(c, m, k, idx, 0);
}

proof fn lemma_waitn_scan_reaches(c: CpuSnap, m: MemSnap, k: KernelSnap, idx: u32, j: u32)
    requires
        idx < c.regs[2],
        j <= idx,
        forall|j2: u32|
            j2 < idx ==> s_lookup(
                #[trigger] k.handles.entries,
                s_mem_read32(m, c.regs[1].wrapping_add(j2.wrapping_mul(4))),
            ) is None,
        s_lookup(
            k.handles.entries,
            s_mem_read32(m, c.regs[1].wrapping_add(idx.wrapping_mul(4))),
        ) matches Some(HandleSnap::Session(n)),
    ensures
        s_waitn_loop(m, k, c.regs[1], c.regs[2], j) == (k, Some(idx)),
    decreases idx - j,
{
    if j < idx {
        lemma_waitn_scan_reaches(c, m, k, idx, (j + 1) as u32);
    }
}

/// DuplicateHandle: a second handle to the same entry.
pub open spec fn s_svc_duplicate_handle(c: CpuSnap, k: KernelSnap) -> (CpuSnap, KernelSnap) {
    match s_lookup(k.handles.entries, c.regs[1]) {
        Some(e) => {
            let (k1, handle) = s_alloc_handle(k, e);
            (s_with_reg(s_with_reg(c, 1, handle), 0, RESULT_SUCCESS), k1)
        },
        None => (s_with_reg(c, 0, RESULT_INVALID_HANDLE), k),
    }
}

fn svc_duplicate_handle(cpu: &mut Cpu, kernel: &mut Kernel)
    requires
        old(cpu)@.wf(),
    ensures
        final(cpu)@ == s_svc_duplicate_handle(old(cpu)@, old(kernel)@).0,
        final(kernel)@ == s_svc_duplicate_handle(old(cpu)@, old(kernel)@).1,
        final(cpu)@.wf(),
{
    let handle = cpu.regs[1];
    let mut cloned: Option<HandleEntry> = None;
    match kernel.get_handle(handle) {
        Some(e) => {
            cloned = Some(clone_entry(e));
        },
        None => {},
    }
    match cloned {
        Some(entry) => {
            let new_handle = kernel.allocate_handle(entry);
            cpu.regs[1] = new_handle;
            cpu.regs[0] = RESULT_SUCCESS;
        },
        None => {
            cpu.regs[0] = RESULT_INVALID_HANDLE;
        },
    }
    proof {
        assert(kernel@ =~= s_svc_duplicate_handle(old(cpu)@, old(kernel)@).1);
        assert(cpu@ =~= s_svc_duplicate_handle(old(cpu)@, old(kernel)@).0);
    }
}

/// GetSystemTick: the cycle counter split into two 32-bit halves.
pub open spec fn s_svc_get_system_tick(c: CpuSnap) -> CpuSnap {
    s_with_reg(s_with_reg(c, 0, c.cycles as u32), 1, (c.cycles >> 32u64) as u32)
}

fn svc_get_system_tick(cpu: &mut Cpu)
    requires
        old(cpu)@.wf(),
    ensures
        final(cpu)@ == s_svc_get_system_tick(old(cpu)@),
        final(cpu)@.wf(),
{
    let ticks = cpu.cycles;
    cpu.regs[0] = #[verifier::truncate] (ticks as u32);
    cpu.regs[1] = (ticks >> 32) as u32;
    proof {
        assert(cpu@ =~= s_svc_get_system_tick(old(cpu)@));
    }
}

/// The port name read for ConnectToPort: up to twelve bytes, stopping at the
/// first NUL.
pub open spec fn s_port_name(m: MemSnap, ptr: u32, i: nat) -> Seq<u8>
    decreases 12 - i,
{
    if i >= 12 {
        Seq::empty()
    } else {
        let b = s_mem_read8(m, ptr.wrapping_add(i as u32));
        if b == 0 {
            Seq::empty()
        } else {
            seq![b] + s_port_name(m, ptr, i + 1)
        }
    }
}

/// The diagnostic note recorded when a connect fails: the name, an `@`, and
/// the pointer in hexadecimal.
pub open spec fn s_connect_fail_note(name: Seq<u8>, ptr: u32) -> Seq<u8> {
    name + seq![0x40u8] + crate::bits::s_hex8(ptr)
}

/// ConnectToPort: look the name up; a hit mints a session handle, a miss
/// records the name for diagnostics and fails with NOT_FOUND.
pub open spec fn s_svc_connect_to_port(c: CpuSnap, m: MemSnap, k: KernelSnap) -> (
    CpuSnap,
    KernelSnap,
) {
    let name = s_port_name(m, c.regs[1], 0);
    let (k1, r) = s_connect_to_port(k, name);
    match r {
        Some(session_handle) => (
            s_with_reg(s_with_reg(c, 1, session_handle), 0, RESULT_SUCCESS),
            k1,
        ),
        None => (
            s_with_reg(c, 0, RESULT_NOT_FOUND),
            KernelSnap { last_connect_fail: s_connect_fail_note(name, c.regs[1]), ..k1 },
        ),
    }
}

/// Read a NUL-terminated port name of at most twelve bytes out of guest
/// memory.
pub(crate) fn read_port_name(mem: &Memory, name_ptr: u32) -> (r: Vec<u8>)
    requires
        mem@.wf(),
    ensures
        r@ == s_port_name(mem@, name_ptr, 0),
{
    let mut name_bytes: Vec<u8> = Vec::new();
    let mut i: u32 = 0;
    let mut stopped = false;
    while i < 12 && !stopped
        invariant
            i <= 12,
            mem@.wf(),
            !stopped ==> s_port_name(mem@, name_ptr, 0) == name_bytes@ + s_port_name(
                mem@,
                name_ptr,
                i as nat,
            ),
            stopped ==> s_port_name(mem@, name_ptr, 0) == name_bytes@,
        decreases 12 - i, (if stopped { 0nat } else { 1nat }),
    {
        let b = mem.read8(name_ptr.wrapping_add(i));
        if b == 0 {
            stopped = true;
            proof {
                assert(name_bytes@ + Seq::<u8>::empty() =~= name_bytes@);
            }
        } else {
            let ghost prev = name_bytes@;
            name_bytes.push(b);
            proof {
                assert(prev + (seq![b] + s_port_name(mem@, name_ptr, (i + 1) as nat)) =~= name_bytes@
                    + s_port_name(mem@, name_ptr, (i + 1) as nat));
            }
            i = i + 1;
        }
    }
    proof {
        if !stopped {
            assert(s_port_name(mem@, name_ptr, 12) =~= Seq::<u8>::empty());
            assert(name_bytes@ + Seq::<u8>::empty() =~= name_bytes@);
        }
    }
    name_bytes
}

fn svc_connect_to_port(cpu: &mut Cpu, mem: &Memory, kernel: &mut Kernel)
    requires
        old(cpu)@.wf(),
        mem@.wf(),
    ensures
        final(cpu)@ == s_svc_connect_to_port(old(cpu)@, mem@, old(kernel)@).0,
        final(kernel)@ == s_svc_connect_to_port(old(cpu)@, mem@, old(kernel)@).1,
        final(cpu)@.wf(),
{
    let name_ptr = cpu.regs[1];
    let name_bytes = read_port_name(mem, name_ptr);

    match kernel.connect_to_port_bytes(name_bytes.as_slice()) {
        Some(session_handle) => {
            cpu.regs[1] = session_handle;
            cpu.regs[0] = RESULT_SUCCESS;
        },
        None => {
            let mut note = name_bytes;
            note.push(0x40);
            let mut hex = crate::bits::hex8(name_ptr);
            note.append(&mut hex);
            kernel.last_connect_fail = note;
            cpu.regs[0] = RESULT_NOT_FOUND;
            proof {
                assert(kernel@.last_connect_fail =~= s_connect_fail_note(
                    s_port_name(mem@, name_ptr, 0),
                    name_ptr,
                ));
            }
        },
    }
    proof {
        assert(kernel@ =~= s_svc_connect_to_port(old(cpu)@, mem@, old(kernel)@).1);
        assert(cpu@ =~= s_svc_connect_to_port(old(cpu)@, mem@, old(kernel)@).0);
    }
}

/// SendSyncRequest: the dispatcher only acknowledges; the orchestrator
/// routes the request to the named service.
pub open spec fn s_svc_send_sync_request(c: CpuSnap) -> CpuSnap {
    s_with_reg(c, 0, RESULT_SUCCESS)
}

fn svc_send_sync_request(cpu: &mut Cpu)
    requires
        old(cpu)@.wf(),
    ensures
        final(cpu)@ == s_svc_send_sync_request(old(cpu)@),
        final(cpu)@.wf(),
{
    cpu.regs[0] = RESULT_SUCCESS;
    proof {
        assert(cpu@ =~= s_svc_send_sync_request(old(cpu)@));
    }
}

/// GetProcessId, with the current-process pseudo-handle and a permissive
/// fallback to the current thread's process.
pub open spec fn s_svc_get_process_id(c: CpuSnap, k: KernelSnap) -> CpuSnap {
    let handle = c.regs[1];
    if handle == 0xFFFF8001u32 {
        let pid = if 0 <= k.current_thread < k.threads.len() {
            k.threads[k.current_thread].process_id
        } else {
            1u32
        };
        s_with_reg(s_with_reg(c, 1, pid), 0, RESULT_SUCCESS)
    } else {
        match s_lookup(k.handles.entries, handle) {
            Some(HandleSnap::Process(pid)) => s_with_reg(s_with_reg(c, 1, pid), 0, RESULT_SUCCESS),
            _ => {
                if 0 <= k.current_thread < k.threads.len() {
                    s_with_reg(
                        s_with_reg(c, 1, k.threads[k.current_thread].process_id),
                        0,
                        RESULT_SUCCESS,
                    )
                } else {
                    s_with_reg(c, 0, RESULT_INVALID_HANDLE)
                }
            },
        }
    }
}

fn svc_get_process_id(cpu: &mut Cpu, kernel: &Kernel)
    requires
        old(cpu)@.wf(),
    ensures
        final(cpu)@ == s_svc_get_process_id(old(cpu)@, kernel@),
        final(cpu)@.wf(),
{
    let handle = cpu.regs[1];
    if handle == 0xFFFF8001 {
        let pid = if kernel.current_thread < kernel.threads.len() {
            kernel.threads[kernel.current_thread].process_id
        } else {
            1
        };
        cpu.regs[1] = pid;
        cpu.regs[0] = RESULT_SUCCESS;
        proof {
            assert(cpu@ =~= s_svc_get_process_id(old(cpu)@, kernel@));
        }
        return ;
    }
    let mut pid_opt: Option<u32> = None;
    match kernel.get_handle(handle) {
        Some(HandleEntry::Process(pid)) => {
            pid_opt = Some(*pid);
        },
        _ => {},
    }
    match pid_opt {
        Some(pid) => {
            cpu.regs[1] = pid;
            cpu.regs[0] = RESULT_SUCCESS;
        },
        None => {
            if kernel.current_thread < kernel.threads.len() {
                let pid = kernel.threads[kernel.current_thread].process_id;
                cpu.regs[1] = pid;
                cpu.regs[0] = RESULT_SUCCESS;
            } else {
                cpu.regs[0] = RESULT_INVALID_HANDLE;
            }
        },
    }
    proof {
        assert(cpu@ =~= s_svc_get_process_id(old(cpu)@, kernel@));
    }
}

/// GetThreadId, with the current-thread pseudo-handle and the same
/// permissive fallback.
pub open spec fn s_svc_get_thread_id(c: CpuSnap, k: KernelSnap) -> CpuSnap {
    let handle = c.regs[1];
    if handle == 0xFFFF8000u32 {
        let tid = if 0 <= k.current_thread < k.threads.len() {
            k.threads[k.current_thread].id
        } else {
            0u32
        };
        s_with_reg(s_with_reg(c, 1, tid), 0, RESULT_SUCCESS)
    } else {
        match s_lookup(k.handles.entries, handle) {
            Some(HandleSnap::Thread(tid)) => s_with_reg(s_with_reg(c, 1, tid), 0, RESULT_SUCCESS),
            _ => {
                if 0 <= k.current_thread < k.threads.len() {
                    s_with_reg(
                        s_with_reg(c, 1, k.threads[k.current_thread].id),
                        0,
                        RESULT_SUCCESS,
                    )
                } else {
                    s_with_reg(c, 0, RESULT_INVALID_HANDLE)
                }
            },
        }
    }
}

fn svc_get_thread_id(cpu: &mut Cpu, kernel: &Kernel)
    requires
        old(cpu)@.wf(),
    ensures
        final(cpu)@ == s_svc_get_thread_id(old(cpu)@, kernel@),
        final(cpu)@.wf(),
{
    let handle = cpu.regs[1];
    if handle == 0xFFFF8000 {
        let tid = if kernel.current_thread < kernel.threads.len() {
            kernel.threads[kernel.current_thread].id
        } else {
            0
        };
        cpu.regs[1] = tid;
        cpu.regs[0] = RESULT_SUCCESS;
        proof {
            assert(cpu@ =~= s_svc_get_thread_id(old(cpu)@, kernel@));
        }
        return ;
    }
    let mut tid_opt: Option<u32> = None;
    match kernel.get_handle(handle) {
        Some(HandleEntry::Thread(tid)) => {
            tid_opt = Some(*tid);
        },
        _ => {},
    }
    match tid_opt {
        Some(tid) => {
            cpu.regs[1] = tid;
            cpu.regs[0] = RESULT_SUCCESS;
        },
        None => {
            if kernel.current_thread < kernel.threads.len() {
                let tid = kernel.threads[kernel.current_thread].id;
                cpu.regs[1] = tid;
                cpu.regs[0] = RESULT_SUCCESS;
            } else {
                cpu.regs[0] = RESULT_INVALID_HANDLE;
            }
        },
    }
    proof {
        assert(cpu@ =~= s_svc_get_thread_id(old(cpu)@, kernel@));
    }
}

/// GetResourceLimit: a placeholder process handle.
pub open spec fn s_svc_get_resource_limit(c: CpuSnap, k: KernelSnap) -> (CpuSnap, KernelSnap) {
    let (k1, handle) = s_alloc_handle(k, HandleSnap::Process(1));
    (s_with_reg(s_with_reg(c, 1, handle), 0, RESULT_SUCCESS), k1)
}

fn svc_get_resource_limit(cpu: &mut Cpu, kernel: &mut Kernel)
    requires
        old(cpu)@.wf(),
    ensures
        final(cpu)@ == s_svc_get_resource_limit(old(cpu)@, old(kernel)@).0,
        final(kernel)@ == s_svc_get_resource_limit(old(cpu)@, old(kernel)@).1,
        final(cpu)@.wf(),
{
    let handle = kernel.allocate_handle(HandleEntry::Process(1));
    cpu.regs[1] = handle;
    cpu.regs[0] = RESULT_SUCCESS;
    proof {
        assert(cpu@ =~= s_svc_get_resource_limit(old(cpu)@, old(kernel)@).0);
    }
}

/// Placeholder limit values written for each queried name.
pub open spec fn s_reslimit_values(m: MemSnap, values_ptr: u32, count: u32, i: u32) -> MemSnap
    decreases count - i,
{
    if i >= count {
        m
    } else {
        let base = values_ptr.wrapping_add(i.wrapping_mul(8));
        let m1 = s_mem_write32(m, base, 0x1000);
        let m2 = s_mem_write32(m1, base.wrapping_add(4), 0);
        s_reslimit_values(m2, values_ptr, count, (i + 1) as u32)
    }
}

/// GetResourceLimitValues: a fixed placeholder for every queried limit.
pub open spec fn s_svc_get_resource_limit_values(c: CpuSnap, m: MemSnap) -> (CpuSnap, MemSnap) {
    (s_with_reg(c, 0, RESULT_SUCCESS), s_reslimit_values(m, c.regs[0], c.regs[3], 0))
}

fn svc_get_resource_limit_values(cpu: &mut Cpu, mem: &mut Memory)
    requires
        old(cpu)@.wf(),
        old(mem)@.wf(),
    ensures
        final(cpu)@ == s_svc_get_resource_limit_values(old(cpu)@, old(mem)@).0,
        final(mem)@ == s_svc_get_resource_limit_values(old(cpu)@, old(mem)@).1,
        final(cpu)@.wf(),
        final(mem)@.wf(),
{
    let values_ptr = cpu.regs[0];
    let count = cpu.regs[3];
    let mut i: u32 = 0;
    while i < count
        invariant
            i <= count,
            mem@.wf(),
            s_reslimit_values(old(mem)@, values_ptr, count, 0) == s_reslimit_values(
                mem@,
                values_ptr,
                count,
                i,
            ),
        decreases count - i,
    {
        let base = values_ptr.wrapping_add(i.wrapping_mul(8));
        mem.write32(base, 0x1000);
        mem.write32(base.wrapping_add(4), 0);
        i = i + 1;
    }
    cpu.regs[0] = RESULT_SUCCESS;
    proof {
        assert(cpu@ =~= s_svc_get_resource_limit_values(old(cpu)@, old(mem)@).0);
    }
}

/// OutputDebugString is trace-only: the bytes have no effect on the machine.
pub open spec fn s_svc_output_debug_string(c: CpuSnap) -> CpuSnap {
    s_with_reg(c, 0, RESULT_SUCCESS)
}

fn svc_output_debug_string(cpu: &mut Cpu)
    requires
        old(cpu)@.wf(),
    ensures
        final(cpu)@ == s_svc_output_debug_string(old(cpu)@),
        final(cpu)@.wf(),
{
    cpu.regs[0] = RESULT_SUCCESS;
    proof {
        assert(cpu@ =~= s_svc_output_debug_string(old(cpu)@));
    }
}

/// Break: kill the current thread and halt.
pub open spec fn s_svc_break(c: CpuSnap, k: KernelSnap) -> (CpuSnap, KernelSnap) {
    let k1 = if 0 <= k.current_thread < k.threads.len() {
        KernelSnap {
            threads: k.threads.update(k.current_thread, s_kill(k.threads[k.current_thread])),
            ..k
        }
    } else {
        k
    };
    (s_with_reg(CpuSnap { halted: true, ..c }, 0, RESULT_SUCCESS), k1)
}

fn svc_break(cpu: &mut Cpu, kernel: &mut Kernel)
    requires
        old(cpu)@.wf(),
    ensures
        final(cpu)@ == s_svc_break(old(cpu)@, old(kernel)@).0,
        final(kernel)@ == s_svc_break(old(cpu)@, old(kernel)@).1,
        final(cpu)@.wf(),
{
    if kernel.current_thread < kernel.threads.len() {
        let cur = kernel.current_thread;
        let mut t = kernel.threads[cur];
        t.kill();
        kernel.threads[cur] = t;
    }
    cpu.halted = true;
    cpu.regs[0] = RESULT_SUCCESS;
    proof {
        assert(kernel@ =~= s_svc_break(old(cpu)@, old(kernel)@).1);
        assert(cpu@ =~= s_svc_break(old(cpu)@, old(kernel)@).0);
    }
}

/// The return from SVC mode that precedes every operation: PC from LR, CPSR
/// from the banked SPSR.
pub open spec fn s_svc_return(c: CpuSnap) -> CpuSnap {
    let c1 = s_with_reg(c, 15, c.regs[14]);
    let old_cpsr = s_get_spsr(c1);
    let c2 = s_switch_mode(c1, old_cpsr & 0x1F);
    CpuSnap { cpsr: old_cpsr, ..c2 }
}

/// One dispatched system call over the whole machine state.
pub open spec fn s_dispatch(c: CpuSnap, m: MemSnap, k: KernelSnap, svc_num: u32) -> (
    CpuSnap,
    MemSnap,
    KernelSnap,
) {
    let c0 = s_svc_return(c);
    if svc_num == 0x01 {
        let r = s_svc_control_memory(c0, m);
        (r.0, r.1, k)
    } else if svc_num == 0x02 {
        (s_svc_query_memory(c0), m, k)
    } else if svc_num == 0x03 {
        let r = s_svc_exit_process(c0, k);
        (r.0, m, r.1)
    } else if svc_num == 0x08 {
        let r = s_svc_create_thread(c0, k);
        (r.0, m, r.1)
    } else if svc_num == 0x09 {
        let r = s_svc_exit_thread(c0, k);
        (r.0, m, r.1)
    } else if svc_num == 0x0A {
        let r = s_svc_sleep_thread(c0, k);
        (r.0, m, r.1)
    } else if svc_num == 0x0B {
        (s_svc_get_thread_priority(c0, k), m, k)
    } else if svc_num == 0x0C {
        let r = s_svc_set_thread_priority(c0, k);
        (r.0, m, r.1)
    } else if svc_num == 0x13 {
        let r = s_svc_create_mutex(c0, k);
        (r.0, m, r.1)
    } else if svc_num == 0x14 {
        let r = s_svc_release_mutex(c0, k);
        (r.0, m, r.1)
    } else if svc_num == 0x15 {
        let r = s_svc_create_semaphore(c0, k);
        (r.0, m, r.1)
    } else if svc_num == 0x16 {
        let r = s_svc_release_semaphore(c0, k);
        (r.0, m, r.1)
    } else if svc_num == 0x17 {
        let r = s_svc_create_event(c0, k);
        (r.0, m, r.1)
    } else if svc_num == 0x18 {
        let r = s_svc_signal_event(c0, k);
        (r.0, m, r.1)
    } else if svc_num == 0x19 {
        let r = s_svc_clear_event(c0, k);
        (r.0, m, r.1)
    } else if svc_num == 0x1E {
        let r = s_svc_create_timer(c0, k);
        (r.0, m, r.1)
    } else if svc_num == 0x21 {
        let r = s_svc_create_memory_block(c0, k, m);
        (r.0, r.2, r.1)
    } else if svc_num == 0x22 {
        (s_svc_map_memory_block(c0), m, k)
    } else if svc_num == 0x23 {
        let r = s_svc_close_handle(c0, k);
        (r.0, m, r.1)
    } else if svc_num == 0x24 {
        let r = s_svc_wait_sync1(c0, k);
        (r.0, m, r.1)
    } else if svc_num == 0x25 {
        let r = s_svc_wait_sync_n(c0, m, k);
        (r.0, m, r.1)
    } else if svc_num == 0x27 {
        let r = s_svc_duplicate_handle(c0, k);
        (r.0, m, r.1)
    } else if svc_num == 0x28 {
        (s_svc_get_system_tick(c0), m, k)
    } else if svc_num == 0x2D {
        let r = s_svc_connect_to_port(c0, m, k);
        (r.0, m, r.1)
    } else if svc_num == 0x32 {
        (s_svc_send_sync_request(c0), m, k)
    } else if svc_num == 0x35 {
        (s_svc_get_process_id(c0, k), m, k)
    } else if svc_num == 0x37 {
        (s_svc_get_thread_id(c0, k), m, k)
    } else if svc_num == 0x38 {
        let r = s_svc_get_resource_limit(c0, k);
        (r.0, m, r.1)
    } else if svc_num == 0x39 {
        let r = s_svc_get_resource_limit_values(c0, m);
        (r.0, r.1, k)
    } else if svc_num == 0x3C {
        (s_svc_output_debug_string(c0), m, k)
    } else if svc_num == 0x3D {
        let r = s_svc_break(c0, k);
        (r.0, m, r.1)
    } else {
        (s_with_reg(c0, 0, RESULT_SUCCESS), m, k)
    }
}

/// Dispatch one system call: leave SVC mode, then run the operation named by
/// the comment field.
pub fn dispatch(cpu: &mut Cpu, mem: &mut Memory, kernel: &mut Kernel, svc_num: u32)
    requires
        old(cpu)@.wf(),
        old(mem)@.wf(),
    ensures
        final(cpu)@ == s_dispatch(old(cpu)@, old(mem)@, old(kernel)@, svc_num).0,
        final(mem)@ == s_dispatch(old(cpu)@, old(mem)@, old(kernel)@, svc_num).1,
        final(kernel)@ == s_dispatch(old(cpu)@, old(mem)@, old(kernel)@, svc_num).2,
        final(cpu)@.wf(),
        final(mem)@.wf(),
{
    let lr = cpu.regs[14];
    cpu.regs[15] = lr;
    let old_cpsr = cpu.get_spsr();
    cpu.switch_mode(old_cpsr & 0x1F);
    cpu.cpsr = old_cpsr;
    proof {
        assert(cpu@ =~= s_svc_return(old(cpu)@));
    }

    if svc_num == 0x01 {
        svc_control_memory(cpu, mem);
    } else if svc_num == 0x02 {
        svc_query_memory(cpu);
    } else if svc_num == 0x03 {
        svc_exit_process(cpu, kernel);
    } else if svc_num == 0x08 {
        svc_create_thread(cpu, kernel);
    } else if svc_num == 0x09 {
        svc_exit_thread(cpu, kernel);
    } else if svc_num == 0x0A {
        svc_sleep_thread(cpu, kernel);
    } else if svc_num == 0x0B {
        svc_get_thread_priority(cpu, kernel);
    } else if svc_num == 0x0C {
        svc_set_thread_priority(cpu, kernel);
    } else if svc_num == 0x13 {
        svc_create_mutex(cpu, kernel);
    } else if svc_num == 0x14 {
        svc_release_mutex(cpu, kernel);
    } else if svc_num == 0x15 {
        svc_create_semaphore(cpu, kernel);
    } else if svc_num == 0x16 {
        svc_release_semaphore(cpu, kernel);
    } else if svc_num == 0x17 {
        svc_create_event(cpu, kernel);
    } else if svc_num == 0x18 {
        svc_signal_event(cpu, kernel);
    } else if svc_num == 0x19 {
        svc_clear_event(cpu, kernel);
    } else if svc_num == 0x1E {
        svc_create_timer(cpu, kernel);
    } else if svc_num == 0x21 {
        svc_create_memory_block(cpu, kernel, mem);
    } else if svc_num == 0x22 {
        svc_map_memory_block(cpu);
    } else if svc_num == 0x23 {
        svc_close_handle(cpu, kernel);
    } else if svc_num == 0x24 {
        svc_wait_synchronization1(cpu, kernel);
    } else if svc_num == 0x25 {
        svc_wait_synchronization_n(cpu, mem, kernel);
    } else if svc_num == 0x27 {
        svc_duplicate_handle(cpu, kernel);
    } else if svc_num == 0x28 {
        svc_get_system_tick(cpu);
    } else if svc_num == 0x2D {
        svc_connect_to_port(cpu, mem, kernel);
    } else if svc_num == 0x32 {
        svc_send_sync_request(cpu);
    } else if svc_num == 0x35 {
        svc_get_process_id(cpu, kernel);
    } else if svc_num == 0x37 {
        svc_get_thread_id(cpu, kernel);
    } else if svc_num == 0x38 {
        svc_get_resource_limit(cpu, kernel);
    } else if svc_num == 0x39 {
        svc_get_resource_limit_values(cpu, mem);
    } else if svc_num == 0x3C {
        svc_output_debug_string(cpu);
    } else if svc_num == 0x3D {
        svc_break(cpu, kernel);
    } else {
        cpu.regs[0] = RESULT_SUCCESS;
        proof {
            assert(cpu@ =~= s_dispatch(old(cpu)@, old(mem)@, old(kernel)@, svc_num).0);
        }
    }
}

} // verus!
