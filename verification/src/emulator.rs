//! The orchestrator: the fetch–decode–execute step loop, supervisor-call
//! drain, preemption tick, per-frame event signaling, and the embedding
//! surface the host drives.

use vstd::prelude::*;

verus! {

use vstd::string::StringSliceAdditionalSpecFns;

use crate::cpu::Cpu;
use crate::cpu::CpuSnap;
use crate::cpu::CPSR_F;
use crate::cpu::CPSR_I;
use crate::cpu::MODE_SYS;
use crate::cpu::s_in_thumb;
use crate::cpu::s_switch_mode;
use crate::cpu::s_with_reg;
use crate::cpu::arm;
use crate::cpu::thumb;
use crate::cpu::cp15::s_cp15_write;
use crate::hw::Hardware;
use crate::kernel::HandleEntry;
use crate::kernel::HandleSnap;
use crate::kernel::Kernel;
use crate::kernel::KernelSnap;
use crate::kernel::s_alloc_handle;
use crate::kernel::s_kernel_new;
use crate::kernel::s_lookup;
use crate::kernel::s_register_port;
use crate::kernel::s_sat_inc;
use crate::kernel::s_schedule_next;
use crate::kernel::s_store;
use crate::kernel::s_wake_expired;
use crate::kernel::bytes_to_vec;
use crate::kernel::clone_bytes;
use crate::kernel::ipc::IpcCommand;
use crate::kernel::ipc::s_hdr_command_id;
use crate::kernel::ipc::s_cmd_params;
use crate::kernel::ipc::s_hdr_normal;
use crate::kernel::ipc::s_hdr_translate;
use crate::kernel::ipc::s_write_response;
use crate::kernel::svc;
use crate::kernel::svc::s_dispatch;
use crate::kernel::svc::s_port_name;
use crate::kernel::svc::s_wake_tids;
use crate::kernel::sync::EventState;
use crate::kernel::sync::MutexState;
use crate::kernel::sync::ResetType;
use crate::kernel::sync::SemaphoreState;
use crate::kernel::sync::SyncObject;
use crate::kernel::sync::SyncSnap;
use crate::kernel::thread::Thread;
use crate::kernel::thread::ThreadSnap;
use crate::kernel::thread::ThreadState;
use crate::kernel::thread::s_thread_new;
use crate::loader::threedsx;
use crate::memory::MemSnap;
use crate::memory::Memory;
use crate::memory::s_mem_new;
use crate::memory::s_mem_read8;
use crate::memory::s_mem_read16;
use crate::memory::s_mem_read32;
use crate::memory::s_page_align;
use crate::services::ServiceManager;
use crate::services::s_handle_request;
use crate::services::s_services_new;

pub const CYCLES_PER_FRAME: u64 = 4_468_531;

pub const TIMESLICE_CYCLES: u64 = 100_000;

pub const SLEEP_TICK_NS: u64 = 16_666_667;

pub const TOP_FB_SIZE: usize = 400 * 240 * 4;

pub const BOT_FB_SIZE: usize = 320 * 240 * 4;

pub struct Emulator {
    pub cpu: Cpu,
    pub mem: Memory,
    pub kernel: Kernel,
    pub services: ServiceManager,
    pub hw: Hardware,
    pub running: bool,
    pub svc_log: Vec<(u32, u32, u32)>,
    pub ipc_log: Vec<(Vec<u8>, u16)>,
    pub trace_log: Vec<(u32, u32, bool)>,
    pub slice_start: u64,
    pub last_failed_port: Vec<u8>,
}

/// Mathematical snapshot of the whole machine.
#[verifier::ext_equal]
pub struct EmuSnap {
    pub cpu: CpuSnap,
    pub mem: MemSnap,
    pub kernel: KernelSnap,
    pub services: ServiceManager,
    pub timer_cycles: u64,
    pub running: bool,
    pub svc_log: Seq<(u32, u32, u32)>,
    pub ipc_log: Seq<(Seq<u8>, u16)>,
    pub trace_log: Seq<(u32, u32, bool)>,
    pub slice_start: u64,
    pub last_failed_port: Seq<u8>,
}

impl View for Emulator {
    type V = EmuSnap;

    open spec fn view(&self) -> EmuSnap {
        EmuSnap {
            cpu: self.cpu@,
            mem: self.mem@,
            kernel: self.kernel@,
            services: self.services,
            timer_cycles: self.hw.timer.cycle_count,
            running: self.running,
            svc_log: self.svc_log@,
            ipc_log: self.ipc_log@.map_values(|p: (Vec<u8>, u16)| (p.0@, p.1)),
            trace_log: self.trace_log@,
            slice_start: self.slice_start,
            last_failed_port: self.last_failed_port@,
        }
    }
}

impl EmuSnap {
    pub open spec fn wf(self) -> bool {
        &&& self.cpu.wf()
        &&& self.mem.wf()
    }
}

/// A 32-entry ring: the oldest entry leaves when a new one arrives at
/// capacity.
pub open spec fn s_ring_push<T>(s: Seq<T>, x: T) -> Seq<T> {
    if s.len() >= 32 {
        s.drop_first().push(x)
    } else {
        s.push(x)
    }
}

/// Signal an event handle outside any release discipline: mark it signaled
/// and wake every waiter (the per-frame VSync/notification path).
pub open spec fn s_signal_event_handle(k: KernelSnap, handle: u32) -> KernelSnap {
    match s_lookup(k.handles.entries, handle) {
        Some(HandleSnap::Event(sid)) => {
            match s_lookup(k.sync_objects, sid) {
                Some(SyncSnap::Event { signaled, reset, waiting }) => KernelSnap {
                    sync_objects: s_store(
                        k.sync_objects,
                        sid,
                        SyncSnap::Event { signaled: true, reset, waiting: Seq::empty() },
                    ),
                    threads: s_wake_tids(k.threads, waiting),
                    ..k
                },
                _ => k,
            }
        },
        _ => k,
    }
}

/// The pre-created system state: the service ports, the applet lock mutex
/// and events, the notification semaphore, the input and graphics shared
/// memory, and the pre-signaled applet event.
pub open spec fn s_init_system_services(c: EmuSnap) -> EmuSnap {
    let k0 = c.kernel;
    let k1 = s_register_port(k0, "srv:".spec_bytes());
    let k2 = s_register_port(k1, "apt:U".spec_bytes());
    let k3 = s_register_port(k2, "apt:S".spec_bytes());
    let k4 = s_register_port(k3, "gsp::Gpu".spec_bytes());
    let k5 = s_register_port(k4, "hid:USER".spec_bytes());
    let k6 = s_register_port(k5, "fs:USER".spec_bytes());
    let k7 = s_register_port(k6, "dsp::DSP".spec_bytes());
    let k8 = s_register_port(k7, "cfg:u".spec_bytes());
    let k9 = s_register_port(k8, "cfg:s".spec_bytes());
    let k10 = s_register_port(k9, "ndm:u".spec_bytes());
    let k11 = s_register_port(k10, "ac:u".spec_bytes());
    let k12 = s_register_port(k11, "am:net".spec_bytes());
    let k13 = s_register_port(k12, "ptm:u".spec_bytes());
    let k14 = s_register_port(k13, "ptm:sysm".spec_bytes());
    let k15 = s_register_port(k14, "ns:s".spec_bytes());
    let k16 = s_register_port(k15, "y2r:u".spec_bytes());
    let k17 = s_register_port(k16, "ldr:ro".spec_bytes());
    let k18 = s_register_port(k17, "ir:USER".spec_bytes());
    let k19 = s_register_port(k18, "ir:u".spec_bytes());
    let k20 = s_register_port(k19, "csnd:SND".spec_bytes());
    let k21 = s_register_port(k20, "cam:u".spec_bytes());
    let k22 = s_register_port(k21, "err:f".spec_bytes());

    let lock_sid = k22.next_thread_id;
    let k23 = KernelSnap { next_thread_id: s_sat_inc(k22.next_thread_id), ..k22 };
    let k24 = KernelSnap {
        sync_objects: s_store(
            k23.sync_objects,
            lock_sid,
            SyncSnap::Mutex { owner: None, lock_count: 0, waiting: Seq::empty() },
        ),
        ..k23
    };
    let (k25, apt_lock_handle) = s_alloc_handle(k24, HandleSnap::Mutex(lock_sid));

    let sig_sid = k25.next_thread_id;
    let k26 = KernelSnap { next_thread_id: s_sat_inc(k25.next_thread_id), ..k25 };
    let k27 = KernelSnap {
        sync_objects: s_store(
            k26.sync_objects,
            sig_sid,
            SyncSnap::Event { signaled: false, reset: ResetType::OneShot, waiting: Seq::empty() },
        ),
        ..k26
    };
    let (k28, apt_signal_event) = s_alloc_handle(k27, HandleSnap::Event(sig_sid));

    let res_sid = k28.next_thread_id;
    let k29 = KernelSnap { next_thread_id: s_sat_inc(k28.next_thread_id), ..k28 };
    let k30 = KernelSnap {
        sync_objects: s_store(
            k29.sync_objects,
            res_sid,
            SyncSnap::Event { signaled: false, reset: ResetType::OneShot, waiting: Seq::empty() },
        ),
        ..k29
    };
    let (k31, apt_resume_event) = s_alloc_handle(k30, HandleSnap::Event(res_sid));

    let gsp_sid = k31.next_thread_id;
    let k32 = KernelSnap { next_thread_id: s_sat_inc(k31.next_thread_id), ..k31 };
    let k33 = KernelSnap {
        sync_objects: s_store(
            k32.sync_objects,
            gsp_sid,
            SyncSnap::Event { signaled: false, reset: ResetType::OneShot, waiting: Seq::empty() },
        ),
        ..k32
    };
    let (k34, gsp_interrupt_handle) = s_alloc_handle(k33, HandleSnap::Event(gsp_sid));

    let srv_sid = k34.next_thread_id;
    let k35 = KernelSnap { next_thread_id: s_sat_inc(k34.next_thread_id), ..k34 };
    let k36 = KernelSnap {
        sync_objects: s_store(
            k35.sync_objects,
            srv_sid,
            SyncSnap::Semaphore { count: 0, max: 1, waiting: Seq::empty() },
        ),
        ..k35
    };
    let (k37, srv_notif_semaphore) = s_alloc_handle(k36, HandleSnap::Semaphore(srv_sid));

    let shm_addr = c.mem.heap_end;
    let m1 = MemSnap { heap_end: c.mem.heap_end.wrapping_add(s_page_align(0x1000)), ..c.mem };
    let (k38, hid_shm_handle) = s_alloc_handle(k37, HandleSnap::SharedMemory(shm_addr, 0x1000));

    let pad_sid = k38.next_thread_id;
    let k39 = KernelSnap { next_thread_id: s_sat_inc(k38.next_thread_id), ..k38 };
    let k40 = KernelSnap {
        sync_objects: s_store(
            k39.sync_objects,
            pad_sid,
            SyncSnap::Event { signaled: false, reset: ResetType::OneShot, waiting: Seq::empty() },
        ),
        ..k39
    };
    let (k41, hid_pad_event) = s_alloc_handle(k40, HandleSnap::Event(pad_sid));

    let gsp_shm_addr = m1.heap_end;
    let m2 = MemSnap { heap_end: m1.heap_end.wrapping_add(s_page_align(0x1000)), ..m1 };
    let (k42, gsp_shm_handle) = s_alloc_handle(
        k41,
        HandleSnap::SharedMemory(gsp_shm_addr, 0x1000),
    );

    let sm = ServiceManager {
        apt_lock_handle,
        apt_signal_event,
        apt_resume_event,
        gsp_interrupt_handle: Some(gsp_interrupt_handle),
        srv_notif_semaphore,
        hid_shm_handle,
        hid_shm_addr: shm_addr,
        hid_pad_event,
        gsp_shared_mem_handle: Some(gsp_shm_handle),
        ..c.services
    };
    let k43 = s_signal_event_handle(k42, apt_signal_event);
    EmuSnap { kernel: k43, mem: m2, services: sm, ..c }
}

/// The instruction step alone: fetch at the PC, expose the fetched-ahead PC
/// to the handler, and settle the PC on the natural next instruction when
/// the handler did not branch.  This is the whole interpreter transition:
/// two instances stepped from equal states stay equal.
pub open spec fn s_instr_step(c: CpuSnap, m: MemSnap, log: Seq<(u32, u32, bool)>) -> (
    CpuSnap,
    MemSnap,
    Seq<(u32, u32, bool)>,
) {
    if s_in_thumb(c) {
        let pc = c.regs[15];
        let instr = s_mem_read16(m, pc);
        let log1 = s_ring_push(log, (pc, instr as u32, true));
        let c1 = s_with_reg(c, 15, pc.wrapping_add(4));
        let stepped = thumb::s_thumb_execute(c1, m, instr);
        let c2 = if stepped.0.regs[15] == pc.wrapping_add(4) {
            s_with_reg(stepped.0, 15, pc.wrapping_add(2))
        } else {
            stepped.0
        };
        (c2, stepped.1, log1)
    } else {
        let pc = c.regs[15];
        let instr = s_mem_read32(m, pc);
        let log1 = s_ring_push(log, (pc, instr, false));
        let c1 = s_with_reg(c, 15, pc.wrapping_add(8));
        let stepped = arm::s_arm_execute(c1, m, instr);
        let c2 = if stepped.0.regs[15] == pc.wrapping_add(8) {
            s_with_reg(stepped.0, 15, pc.wrapping_add(4))
        } else {
            stepped.0
        };
        (c2, stepped.1, log1)
    }
}

/// The interpreter is deterministic: equal register and memory snapshots
/// step to equal snapshots, and stay equal over any number of steps.
pub open spec fn s_instr_steps(c: CpuSnap, m: MemSnap, n: nat) -> (CpuSnap, MemSnap)
    decreases n,
{
    if n == 0 {
        (c, m)
    } else {
        let stepped = s_instr_step(c, m, Seq::empty());
        s_instr_steps(stepped.0, stepped.1, (n - 1) as nat)
    }
}

/// Determinism of the interpreter: two instances started from bit-identical
/// register and memory snapshots remain bit-identical after any number of
/// fetch–decode–execute steps.
pub proof fn lemma_interpreter_deterministic(
    c1: CpuSnap,
    m1: MemSnap,
    c2: CpuSnap,
    m2: MemSnap,
    n: nat,
)
    requires
        c1 == c2,
        m1 == m2,
    ensures
        s_instr_steps(c1, m1, n) == s_instr_steps(c2, m2, n),
{
}

/// The session name routed for a SendSyncRequest, if the handle names one.
pub open spec fn s_session_of(k: KernelSnap, handle: u32) -> Option<Seq<u8>> {
    s_lookup(k.sessions, handle)
}

/// The name requested from the service directory: the first eight bytes of
/// the two parameter words, cut at the requested length and at the first
/// NUL.
pub open spec fn s_srv_name_bytes(p0: u32, p1: u32, name_len: int) -> Seq<u8> {
    let raw = seq![
        p0 as u8,
        (p0 >> 8u32) as u8,
        (p0 >> 16u32) as u8,
        (p0 >> 24u32) as u8,
        p1 as u8,
        (p1 >> 8u32) as u8,
        (p1 >> 16u32) as u8,
        (p1 >> 24u32) as u8,
    ];
    let cut = if name_len < 8 {
        if name_len < 0 {
            0
        } else {
            name_len
        }
    } else {
        8
    };
    s_take_until_nul(raw, cut, 0)
}

/// The prefix of `raw` up to `cut`, stopped at the first NUL byte.
pub open spec fn s_take_until_nul(raw: Seq<u8>, cut: int, i: int) -> Seq<u8>
    decreases cut - i,
{
    if i >= cut || i < 0 || i >= raw.len() {
        Seq::empty()
    } else if raw[i] == 0 {
        Seq::empty()
    } else {
        seq![raw[i]] + s_take_until_nul(raw, cut, i + 1)
    }
}

/// The service directory's own commands: RegisterClient, EnableNotification
/// (handing out the pre-created semaphore), and GetServiceHandle (minting a
/// session for the named service).
pub open spec fn s_handle_srv_ipc(m: MemSnap, k: KernelSnap, sm: ServiceManager) -> (
    MemSnap,
    KernelSnap,
) {
    let header = s_mem_read32(m, crate::kernel::ipc::IPC_BUFFER_ADDR);
    let params = s_cmd_params(m, s_hdr_normal(header) + s_hdr_translate(header));
    let cmd_id = s_hdr_command_id(header);
    if cmd_id == 0x0001 {
        (s_write_response(m, header, 0, Seq::empty()), k)
    } else if cmd_id == 0x0002 {
        (s_write_response(m, header, 0, seq![0u32, sm.srv_notif_semaphore]), k)
    } else if cmd_id == 0x0005 {
        let name = s_srv_name_bytes(
            crate::services::gsp::s_param(params, 0),
            crate::services::gsp::s_param(params, 1),
            crate::services::gsp::s_param(params, 2) as int,
        );
        let conn = crate::kernel::s_connect_to_port(k, name);
        match conn.1 {
            Some(session_handle) => (
                s_write_response(m, header, 0, seq![0u32, session_handle]),
                conn.0,
            ),
            None => (s_write_response(m, header, 0xD8E007FAu32, Seq::empty()), conn.0),
        }
    } else {
        (s_write_response(m, header, 0, Seq::empty()), k)
    }
}

/// One supervisor call as the orchestrator sees it: dispatch, then IPC
/// routing for SendSyncRequest, the failed-port capture for ConnectToPort,
/// and the call log.
pub open spec fn s_handle_svc_full(e: EmuSnap, svc_num: u32) -> EmuSnap {
    let pre_r0 = e.cpu.regs[0];
    let pre_r1 = e.cpu.regs[1];
    let d = s_dispatch(e.cpu, e.mem, e.kernel, svc_num);
    let c1 = d.0;
    let m1 = d.1;
    let k1 = d.2;
    let routed: (MemSnap, KernelSnap, ServiceManager, Seq<(Seq<u8>, u16)>) = if svc_num == 0x32 {
        match s_session_of(k1, pre_r0) {
            Some(name) => {
                let header = s_mem_read32(m1, crate::kernel::ipc::IPC_BUFFER_ADDR);
                let log1 = s_ring_push(e.ipc_log, (name, s_hdr_command_id(header)));
                if name == "srv:".spec_bytes() {
                    let srv = s_handle_srv_ipc(m1, k1, e.services);
                    (srv.0, srv.1, e.services, log1)
                } else {
                    let h = s_handle_request(name, m1, e.services);
                    (h.0, k1, h.1, log1)
                }
            },
            None => (m1, k1, e.services, e.ipc_log),
        }
    } else {
        (m1, k1, e.services, e.ipc_log)
    };
    let failed: Seq<u8> = if svc_num == 0x2D && c1.regs[0] != 0 {
        s_port_name(routed.0, pre_r1, 0)
    } else {
        e.last_failed_port
    };
    let log2 = s_ring_push(e.svc_log, (svc_num, pre_r0, c1.regs[0]));
    EmuSnap {
        cpu: c1,
        mem: routed.0,
        kernel: routed.1,
        services: routed.2,
        ipc_log: routed.3,
        last_failed_port: failed,
        svc_log: log2,
        ..e
    }
}

/// Save the current thread's registers and hand the CPU to the scheduler's
/// pick; with nothing runnable the CPU halts.
pub open spec fn s_context_switch(e: EmuSnap) -> EmuSnap {
    let k = e.kernel;
    let k1 = if 0 <= k.current_thread < k.threads.len() {
        let t = k.threads[k.current_thread];
        let saved = ThreadSnap { regs: e.cpu.regs, cpsr: e.cpu.cpsr, ..t };
        let demoted = if saved.state == ThreadState::Running {
            ThreadSnap { state: ThreadState::Ready, ..saved }
        } else {
            saved
        };
        KernelSnap { threads: k.threads.update(k.current_thread, demoted), ..k }
    } else {
        k
    };
    let sched = s_schedule_next(k1);
    match sched.1 {
        Some(next) => {
            let t = sched.0.threads[next];
            EmuSnap {
                kernel: sched.0,
                cpu: CpuSnap { regs: t.regs, cpsr: t.cpsr, halted: false, ..e.cpu },
                ..e
            }
        },
        None => EmuSnap {
            kernel: sched.0,
            cpu: CpuSnap { halted: true, ..e.cpu },
            ..e
        },
    }
}

/// Whether a Ready thread other than the current one exists.
pub open spec fn s_has_other_ready(k: KernelSnap) -> bool {
    exists|i: int|
        0 <= i < k.threads.len() && i != k.current_thread && k.threads[i].state
            == ThreadState::Ready
}

/// The preemption tick: with more than one thread and another Ready one, the
/// current thread yields the CPU.
pub open spec fn s_preempt(e: EmuSnap) -> EmuSnap {
    if e.kernel.threads.len() <= 1 {
        e
    } else if s_has_other_ready(e.kernel) {
        s_context_switch(e)
    } else {
        e
    }
}

/// One full orchestrator step: one instruction, the supervisor-call drain,
/// and the reschedule point.
pub open spec fn s_step(e: EmuSnap) -> EmuSnap {
    let stepped = s_instr_step(e.cpu, e.mem, e.trace_log);
    let e1 = EmuSnap { cpu: stepped.0, mem: stepped.1, trace_log: stepped.2, ..e };
    let e2 = match e1.cpu.svc_pending {
        Some(svc_num) => s_handle_svc_full(
            EmuSnap { cpu: CpuSnap { svc_pending: None, ..e1.cpu }, ..e1 },
            svc_num,
        ),
        None => e1,
    };
    if e2.kernel.needs_reschedule {
        s_context_switch(e2)
    } else {
        e2
    }
}

/// The frame loop: steps until the cycle target, the fuel bound mirroring
/// the cycle budget (every step costs at least one cycle, so the bound never
/// binds).  A halted CPU tries one reschedule and otherwise ends the frame.
pub open spec fn s_run_loop(e: EmuSnap, target: u64, fuel: nat) -> EmuSnap
    decreases fuel,
{
    if fuel == 0 || !(e.cpu.cycles < target) || !e.running {
        e
    } else if e.cpu.halted {
        let e1 = s_context_switch(EmuSnap { cpu: CpuSnap { halted: false, ..e.cpu }, ..e });
        if e1.cpu.halted {
            EmuSnap { cpu: CpuSnap { cycles: target, ..e1.cpu }, ..e1 }
        } else {
            s_run_loop(s_after_step(e1, target), target, (fuel - 1) as nat)
        }
    } else {
        s_run_loop(s_after_step(e, target), target, (fuel - 1) as nat)
    }
}

/// One loop iteration after the halted check: the step and the time-slice
/// preemption.
pub open spec fn s_after_step(e: EmuSnap, target: u64) -> EmuSnap {
    let e1 = s_step(e);
    if e1.cpu.cycles.wrapping_sub(e1.slice_start) >= TIMESLICE_CYCLES {
        EmuSnap { slice_start: s_preempt(e1).cpu.cycles, ..s_preempt(e1) }
    } else {
        e1
    }
}

/// One host frame: wake expired sleepers, run the cycle budget, advance the
/// system timer, signal the applet and VSync events, and publish the button
/// state to the input shared memory.
pub open spec fn s_run_frame(e: EmuSnap) -> EmuSnap {
    if !e.running {
        e
    } else {
        let e1 = EmuSnap {
            kernel: KernelSnap {
                threads: s_wake_expired(e.kernel.threads, SLEEP_TICK_NS),
                ..e.kernel
            },
            ..e
        };
        let target = e1.cpu.cycles.wrapping_add(CYCLES_PER_FRAME);
        let e2 = EmuSnap { slice_start: e1.cpu.cycles, ..e1 };
        let e3 = s_run_loop(e2, target, CYCLES_PER_FRAME as nat);
        let e4 = EmuSnap {
            timer_cycles: e3.timer_cycles.wrapping_add(CYCLES_PER_FRAME),
            ..e3
        };
        let e5 = EmuSnap {
            kernel: s_signal_event_handle(e4.kernel, e4.services.apt_signal_event),
            ..e4
        };
        let e6 = match e5.services.gsp_interrupt_handle {
            Some(gsp_h) => EmuSnap {
                kernel: s_signal_event_handle(e5.kernel, gsp_h),
                ..e5
            },
            None => e5,
        };
        if e6.services.hid_shm_addr != 0 {
            EmuSnap {
                mem: crate::services::hid::s_update_shared_memory(
                    e6.mem,
                    e6.services.hid_shm_addr,
                    e6.services.buttons,
                ),
                ..e6
            }
        } else {
            e6
        }
    }
}

impl Emulator {
    pub fn new() -> (e: Self)
        ensures
            e@ == s_init_system_services(
                EmuSnap {
                    cpu: crate::cpu::s_cpu_new(),
                    mem: s_mem_new(),
                    kernel: s_kernel_new(),
                    services: s_services_new(),
                    timer_cycles: 0,
                    running: false,
                    svc_log: Seq::empty(),
                    ipc_log: Seq::empty(),
                    trace_log: Seq::empty(),
                    slice_start: 0,
                    last_failed_port: Seq::empty(),
                },
            ),
            e@.wf(),
    {
        let mut emu = Self {
            cpu: Cpu::new(),
            mem: Memory::new(),
            kernel: Kernel::new(),
            services: ServiceManager::new(),
            hw: Hardware::new(),
            running: false,
            svc_log: Vec::new(),
            ipc_log: Vec::new(),
            trace_log: Vec::new(),
            slice_start: 0,
            last_failed_port: Vec::new(),
        };
        proof {
            assert(emu@.svc_log =~= Seq::<(u32, u32, u32)>::empty());
            assert(emu@.ipc_log =~= Seq::<(Seq<u8>, u16)>::empty());
            assert(emu@.trace_log =~= Seq::<(u32, u32, bool)>::empty());
            assert(emu@.last_failed_port =~= Seq::<u8>::empty());
        }
        emu.init_system_services();
        emu
    }

    fn init_system_services(&mut self)
        requires
            old(self)@.wf(),
        ensures
            final(self)@ == s_init_system_services(old(self)@),
            final(self)@.wf(),
    {
        self.kernel.register_port("srv:");
        self.kernel.register_port("apt:U");
        self.kernel.register_port("apt:S");
        self.kernel.register_port("gsp::Gpu");
        self.kernel.register_port("hid:USER");
        self.kernel.register_port("fs:USER");
        self.kernel.register_port("dsp::DSP");
        self.kernel.register_port("cfg:u");
        self.kernel.register_port("cfg:s");
        self.kernel.register_port("ndm:u");
        self.kernel.register_port("ac:u");
        self.kernel.register_port("am:net");
        self.kernel.register_port("ptm:u");
        self.kernel.register_port("ptm:sysm");
        self.kernel.register_port("ns:s");
        self.kernel.register_port("y2r:u");
        self.kernel.register_port("ldr:ro");
        self.kernel.register_port("ir:USER");
        self.kernel.register_port("ir:u");
        self.kernel.register_port("csnd:SND");
        self.kernel.register_port("cam:u");
        self.kernel.register_port("err:f");

        let sid = self.kernel.alloc_sync_id();
        crate::kernel::svc::sync_store(&mut self.kernel, sid, SyncObject::Mutex(MutexState::new()));
        let h = self.kernel.allocate_handle(HandleEntry::Mutex(sid));
        self.services.apt_lock_handle = h;

        let sid = self.kernel.alloc_sync_id();
        crate::kernel::svc::sync_store(&mut self.kernel, sid, SyncObject::Event(EventState::new(ResetType::OneShot)));
        let h = self.kernel.allocate_handle(HandleEntry::Event(sid));
        self.services.apt_signal_event = h;

        let sid = self.kernel.alloc_sync_id();
        crate::kernel::svc::sync_store(&mut self.kernel, sid, SyncObject::Event(EventState::new(ResetType::OneShot)));
        let h = self.kernel.allocate_handle(HandleEntry::Event(sid));
        self.services.apt_resume_event = h;

        let sid = self.kernel.alloc_sync_id();
        crate::kernel::svc::sync_store(&mut self.kernel, sid, SyncObject::Event(EventState::new(ResetType::OneShot)));
        let h = self.kernel.allocate_handle(HandleEntry::Event(sid));
        self.services.gsp_interrupt_handle = Some(h);

        let sid = self.kernel.alloc_sync_id();
        crate::kernel::svc::sync_store(&mut self.kernel, sid, SyncObject::Semaphore(SemaphoreState::new(0, 1)));
        let h = self.kernel.allocate_handle(HandleEntry::Semaphore(sid));
        self.services.srv_notif_semaphore = h;

        let shm_addr = self.mem.alloc_heap(0x1000);
        let shm_handle = self.kernel.allocate_handle(HandleEntry::SharedMemory(shm_addr, 0x1000));
        self.services.hid_shm_handle = shm_handle;
        self.services.hid_shm_addr = shm_addr;

        let sid = self.kernel.alloc_sync_id();
        crate::kernel::svc::sync_store(&mut self.kernel, sid, SyncObject::Event(EventState::new(ResetType::OneShot)));
        let h = self.kernel.allocate_handle(HandleEntry::Event(sid));
        self.services.hid_pad_event = h;

        let gsp_shm_addr = self.mem.alloc_heap(0x1000);
        let gsp_shm_handle = self.kernel.allocate_handle(
            HandleEntry::SharedMemory(gsp_shm_addr, 0x1000),
        );
        self.services.gsp_shared_mem_handle = Some(gsp_shm_handle);

        let apt_sig = self.services.apt_signal_event;
        self.signal_event_handle(apt_sig);
        proof {
            assert(self@ =~= s_init_system_services(old(self)@));
        }
    }

    /// Signal an event handle: mark it signaled and wake all waiters.
    fn signal_event_handle(&mut self, handle: u32)
        ensures
            final(self)@ == (EmuSnap {
                kernel: s_signal_event_handle(old(self)@.kernel, handle),
                ..old(self)@
            }),
    {
        let mut sid_opt: Option<u32> = None;
        match self.kernel.get_handle(handle) {
            Some(HandleEntry::Event(sid)) => {
                sid_opt = Some(*sid);
            },
            _ => {},
        }
        match sid_opt {
            Some(sid) => {
                match crate::kernel::svc::sync_index(&self.kernel, sid) {
                    Some(i) => {
                        let (key, mut obj) = self.kernel.sync_objects.remove(i);
                        let woken = crate::kernel::sync::signal_all(&mut obj);
                        self.kernel.sync_objects.insert(i, (key, obj));
                        proof {
                            assert(self.kernel@.sync_objects =~= s_store(
                                old(self)@.kernel.sync_objects,
                                sid,
                                obj@,
                            ));
                        }
                        crate::kernel::svc::wake_tids(&mut self.kernel, &woken);
                        proof {
                            assert(self@ =~= (EmuSnap {
                                kernel: s_signal_event_handle(old(self)@.kernel, handle),
                                ..old(self)@
                            }));
                        }
                    },
                    None => {
                        proof {
                            assert(self@ =~= (EmuSnap {
                                kernel: s_signal_event_handle(old(self)@.kernel, handle),
                                ..old(self)@
                            }));
                        }
                    },
                }
            },
            None => {
                proof {
                    assert(self@ =~= (EmuSnap {
                        kernel: s_signal_event_handle(old(self)@.kernel, handle),
                        ..old(self)@
                    }));
                }
            },
        }
    }
}

impl Emulator {
    /// Boot an executable: load it at the code base, create the primordial
    /// thread on a freshly allocated stack, and start in SYS mode with
    /// interrupts enabled.
    pub fn load_3dsx(&mut self, data: &[u8]) -> (r: bool)
        requires
            old(self)@.wf(),
            data@.len() < 0xFFFF_0000,
        ensures
            final(self)@ == s_load_3dsx(old(self)@, data@).0,
            r == s_load_3dsx(old(self)@, data@).1,
            final(self)@.wf(),
    {
        let base_addr = crate::memory::VADDR_CODE_BASE;
        match threedsx::load(data, &mut self.mem, base_addr) {
            Some(entry) => {
                let pid = self.kernel.next_process_id;
                if self.kernel.next_process_id < 0xFFFF_FFFF {
                    self.kernel.next_process_id = self.kernel.next_process_id + 1;
                }
                let tid = self.kernel.next_thread_id;
                if self.kernel.next_thread_id < 0xFFFF_FFFF {
                    self.kernel.next_thread_id = self.kernel.next_thread_id + 1;
                }

                let stack_size: u32 = 0x1_0000;
                let stack_base = self.mem.alloc_heap(stack_size);
                let stack_top = stack_base.wrapping_add(stack_size);
                let thread = Thread::new(tid, pid, entry, stack_top, 0x30);
                self.kernel.threads.push(thread);
                self.kernel.current_thread = 0;
                let mut t0 = self.kernel.threads[0];
                t0.state = ThreadState::Running;
                self.kernel.threads[0] = t0;

                self.cpu.switch_mode(MODE_SYS);
                self.cpu.cpsr = self.cpu.cpsr & !(CPSR_I | CPSR_F);
                self.cpu.set_pc(entry);
                self.cpu.regs[13] = stack_top;
                self.cpu.cp15.write(13, 0, 0, 3, crate::memory::VADDR_TLS_BASE);
                self.running = true;
                proof {
                    assert(self@ =~= s_load_3dsx(old(self)@, data@).0);
                }
                true
            },
            None => {
                proof {
                    assert(self@ =~= s_load_3dsx(old(self)@, data@).0);
                }
                false
            },
        }
    }

    /// Append to the instruction trace ring.
    fn trace_push(&mut self, pc: u32, instr: u32, is_thumb: bool)
        ensures
            final(self)@ == (EmuSnap {
                trace_log: s_ring_push(old(self)@.trace_log, (pc, instr, is_thumb)),
                ..old(self)@
            }),
    {
        if self.trace_log.len() >= 32 {
            self.trace_log.remove(0);
        }
        self.trace_log.push((pc, instr, is_thumb));
        proof {
            assert(self@.trace_log =~= s_ring_push(old(self)@.trace_log, (pc, instr, is_thumb)));
            assert(self@ =~= (EmuSnap {
                trace_log: s_ring_push(old(self)@.trace_log, (pc, instr, is_thumb)),
                ..old(self)@
            }));
        }
    }

    /// One orchestrator step: fetch and execute one instruction with the
    /// fetched-ahead PC exposed, drain a pending supervisor call, and take
    /// the reschedule point if one was requested.
    #[verifier::rlimit(100)]
    pub fn step(&mut self)
        requires
            old(self)@.wf(),
        ensures
            final(self)@ == s_step(old(self)@),
            final(self)@.wf(),
    {
        if self.cpu.in_thumb_mode() {
            let pc = self.cpu.pc();
            let instr = self.mem.read16(pc);
            self.trace_push(pc, instr as u32, true);
            self.cpu.set_pc(pc.wrapping_add(4));
            thumb::execute(&mut self.cpu, &mut self.mem, instr);
            if self.cpu.pc() == pc.wrapping_add(4) {
                self.cpu.set_pc(pc.wrapping_add(2));
            }
        } else {
            let pc = self.cpu.pc();
            let instr = self.mem.read32(pc);
            self.trace_push(pc, instr, false);
            self.cpu.set_pc(pc.wrapping_add(8));
            arm::execute(&mut self.cpu, &mut self.mem, instr);
            if self.cpu.pc() == pc.wrapping_add(8) {
                self.cpu.set_pc(pc.wrapping_add(4));
            }
        }
        proof {
            let stepped = s_instr_step(old(self)@.cpu, old(self)@.mem, old(self)@.trace_log);
            assert(self@ =~= (EmuSnap {
                cpu: stepped.0,
                mem: stepped.1,
                trace_log: stepped.2,
                ..old(self)@
            }));
        }

        let pending = self.cpu.svc_pending;
        match pending {
            Some(svc_num) => {
                self.cpu.svc_pending = None;
                self.handle_svc(svc_num);
            },
            None => {},
        }

        if self.kernel.needs_reschedule {
            self.context_switch();
        }
        proof {
            assert(self@ =~= s_step(old(self)@));
        }
    }

    /// Dispatch a supervisor call, route SendSyncRequest to the named
    /// service, capture the name of a failed port connection, and log the
    /// call.
    fn handle_svc(&mut self, svc_num: u32)
        requires
            old(self)@.wf(),
        ensures
            final(self)@ == s_handle_svc_full(old(self)@, svc_num),
            final(self)@.wf(),
    {
        let pre_r0 = self.cpu.regs[0];
        let pre_r1 = self.cpu.regs[1];

        svc::dispatch(&mut self.cpu, &mut self.mem, &mut self.kernel, svc_num);

        if svc_num == 0x32 {
            let mut name_opt: Option<Vec<u8>> = None;
            match self.kernel.get_session_service(pre_r0) {
                Some(n) => {
                    name_opt = Some(clone_bytes(n));
                },
                None => {},
            }
            match name_opt {
                Some(name) => {
                    let cmd = IpcCommand::parse(&self.mem);
                    if self.ipc_log.len() >= 32 {
                        self.ipc_log.remove(0);
                    }
                    self.ipc_log.push((clone_bytes(&name), cmd.command_id));
                    proof {
                        assert(self@.ipc_log =~= s_ring_push(
                            old(self)@.ipc_log,
                            (name@, cmd.command_id),
                        ));
                    }
                    if crate::kernel::bytes_eq(name.as_slice(), "srv:".as_bytes()) {
                        self.handle_srv_ipc();
                    } else {
                        let m = &mut self.mem;
                        self.services.handle_request_bytes(name.as_slice(), m);
                    }
                },
                None => {},
            }
        }

        if svc_num == 0x2D && self.cpu.regs[0] != 0 {
            let name = crate::kernel::svc::read_port_name(&self.mem, pre_r1);
            self.last_failed_port = name;
        }

        if self.svc_log.len() >= 32 {
            self.svc_log.remove(0);
        }
        let out_r0 = self.cpu.regs[0];
        self.svc_log.push((svc_num, pre_r0, out_r0));
        proof {
            assert(self@.svc_log =~= s_ring_push(
                old(self)@.svc_log,
                (svc_num, pre_r0, s_dispatch(old(self)@.cpu, old(self)@.mem, old(self)@.kernel, svc_num).0.regs[0]),
            ));
            assert(self@ =~= s_handle_svc_full(old(self)@, svc_num));
        }
    }

    /// Handle a request on the service directory's own session.
    fn handle_srv_ipc(&mut self)
        requires
            old(self)@.wf(),
        ensures
            final(self)@ == (EmuSnap {
                mem: s_handle_srv_ipc(old(self)@.mem, old(self)@.kernel, old(self)@.services).0,
                kernel: s_handle_srv_ipc(old(self)@.mem, old(self)@.kernel, old(self)@.services).1,
                ..old(self)@
            }),
            final(self)@.wf(),
    {
        let cmd = IpcCommand::parse(&self.mem);
        if cmd.command_id == 0x0001 {
            let vals: Vec<u32> = Vec::new();
            IpcCommand::write_response(&mut self.mem, cmd.header, 0, vals.as_slice());
            proof {
                assert(vals@ =~= Seq::<u32>::empty());
            }
        } else if cmd.command_id == 0x0002 {
            let h = self.services.srv_notif_semaphore;
            let mut vals: Vec<u32> = Vec::new();
            vals.push(0);
            vals.push(h);
            IpcCommand::write_response(&mut self.mem, cmd.header, 0, vals.as_slice());
            proof {
                assert(vals@ =~= seq![0u32, old(self)@.services.srv_notif_semaphore]);
            }
        } else if cmd.command_id == 0x0005 {
            let p0 = cmd.param(0);
            let p1 = cmd.param(1);
            let name_len = cmd.param(2);

            let mut raw: Vec<u8> = Vec::new();
            raw.push(#[verifier::truncate] (p0 as u8));
            raw.push(#[verifier::truncate] ((p0 >> 8) as u8));
            raw.push(#[verifier::truncate] ((p0 >> 16) as u8));
            raw.push((p0 >> 24) as u8);
            raw.push(#[verifier::truncate] (p1 as u8));
            raw.push(#[verifier::truncate] ((p1 >> 8) as u8));
            raw.push(#[verifier::truncate] ((p1 >> 16) as u8));
            raw.push((p1 >> 24) as u8);

            let cut: usize = if name_len < 8 {
                name_len as usize
            } else {
                8
            };
            let mut name: Vec<u8> = Vec::new();
            let mut i: usize = 0;
            let mut stopped = false;
            while i < cut && !stopped
                invariant
                    i <= cut,
                    cut <= 8,
                    raw@.len() == 8,
                    !stopped ==> s_take_until_nul(raw@, cut as int, 0) == name@ + s_take_until_nul(
                        raw@,
                        cut as int,
                        i as int,
                    ),
                    stopped ==> s_take_until_nul(raw@, cut as int, 0) == name@,
                decreases cut - i, (if stopped { 0nat } else { 1nat }),
            {
                let b = raw[i];
                if b == 0 {
                    stopped = true;
                    proof {
                        assert(name@ + Seq::<u8>::empty() =~= name@);
                    }
                } else {
                    let ghost prev = name@;
                    name.push(b);
                    proof {
                        assert(prev + (seq![b] + s_take_until_nul(raw@, cut as int, i + 1)) =~= name@
                            + s_take_until_nul(raw@, cut as int, i + 1));
                    }
                    i = i + 1;
                }
            }
            proof {
                if !stopped {
                    assert(s_take_until_nul(raw@, cut as int, cut as int) =~= Seq::<u8>::empty());
                    assert(name@ + Seq::<u8>::empty() =~= name@);
                }
                assert(raw@ =~= seq![
                    p0 as u8,
                    (p0 >> 8u32) as u8,
                    (p0 >> 16u32) as u8,
                    (p0 >> 24u32) as u8,
                    p1 as u8,
                    (p1 >> 8u32) as u8,
                    (p1 >> 16u32) as u8,
                    (p1 >> 24u32) as u8,
                ]);
                assert(name@ == s_srv_name_bytes(p0, p1, name_len as int));
            }

            match self.kernel.connect_to_port_bytes(name.as_slice()) {
                Some(session_handle) => {
                    let mut vals: Vec<u32> = Vec::new();
                    vals.push(0);
                    vals.push(session_handle);
                    IpcCommand::write_response(&mut self.mem, cmd.header, 0, vals.as_slice());
                    proof {
                        assert(vals@ =~= seq![0u32, session_handle]);
                    }
                },
                None => {
                    let vals: Vec<u32> = Vec::new();
                    IpcCommand::write_response(
                        &mut self.mem,
                        cmd.header,
                        0xD8E007FA,
                        vals.as_slice(),
                    );
                    proof {
                        assert(vals@ =~= Seq::<u32>::empty());
                    }
                },
            }
        } else {
            let vals: Vec<u32> = Vec::new();
            IpcCommand::write_response(&mut self.mem, cmd.header, 0, vals.as_slice());
            proof {
                assert(vals@ =~= Seq::<u32>::empty());
            }
        }
        proof {
            assert(self@ =~= (EmuSnap {
                mem: s_handle_srv_ipc(old(self)@.mem, old(self)@.kernel, old(self)@.services).0,
                kernel: s_handle_srv_ipc(old(self)@.mem, old(self)@.kernel, old(self)@.services).1,
                ..old(self)@
            }));
        }
    }

    /// Save the current thread and switch to the scheduler's pick; with no
    /// runnable thread the CPU halts until a wake.
    fn context_switch(&mut self)
        requires
            old(self)@.wf(),
        ensures
            final(self)@ == s_context_switch(old(self)@),
            final(self)@.wf(),
    {
        let cur = self.kernel.current_thread;
        if cur < self.kernel.threads.len() {
            let mut t = self.kernel.threads[cur];
            t.save_cpu(&self.cpu.regs, self.cpu.cpsr);
            if matches!(t.state, ThreadState::Running) {
                t.state = ThreadState::Ready;
            }
            self.kernel.threads[cur] = t;
        }

        let ghost k1 = self.kernel@;
        proof {
            let e = old(self)@;
            let k = e.kernel;
            let k1s = if 0 <= k.current_thread < k.threads.len() {
                let t = k.threads[k.current_thread];
                let saved = ThreadSnap { regs: e.cpu.regs, cpsr: e.cpu.cpsr, ..t };
                let demoted = if saved.state == ThreadState::Running {
                    ThreadSnap { state: ThreadState::Ready, ..saved }
                } else {
                    saved
                };
                KernelSnap { threads: k.threads.update(k.current_thread, demoted), ..k }
            } else {
                k
            };
            assert(k1 =~~= k1s);
        }
        match self.kernel.schedule_next() {
            Some(next) => {
                proof {
                    crate::kernel::lemma_pick_best_minimal(k1.threads);
                    assert(s_schedule_next(k1).1 == Some(next as int));
                    assert(self.kernel@ == s_schedule_next(k1).0);
                    assert((next as int) < self.kernel@.threads.len());
                }
                let t = self.kernel.threads[next];
                t.restore_into(&mut self.cpu.regs, &mut self.cpu.cpsr);
                self.cpu.halted = false;
                proof {
                    assert(self@ =~~= s_context_switch(old(self)@));
                }
            },
            None => {
                self.cpu.halted = true;
                proof {
                    assert(self@ =~~= s_context_switch(old(self)@));
                }
            },
        }
    }

    /// The time-slice tick: yield the CPU when another Ready thread exists.
    fn preempt(&mut self)
        requires
            old(self)@.wf(),
        ensures
            final(self)@ == s_preempt(old(self)@),
            final(self)@.wf(),
    {
        if self.kernel.threads.len() <= 1 {
            return ;
        }
        let n = self.kernel.threads.len();
        let mut has_ready = false;
        let mut i: usize = 0;
        while i < n
            invariant
                i <= n,
                n == self.kernel.threads@.len(),
                self@ == old(self)@,
                self@.wf(),
                has_ready ==> s_has_other_ready(self@.kernel),
                !has_ready ==> forall|j: int|
                    0 <= j < i ==> !(j != self@.kernel.current_thread && self@.kernel.threads[
                        j
                    ].state == ThreadState::Ready),
            decreases n - i,
        {
            if i != self.kernel.current_thread && matches!(
                self.kernel.threads[i].state,
                ThreadState::Ready,
            ) {
                has_ready = true;
                proof {
                    assert((i as int) < self@.kernel.threads.len() && (i as int)
                        != self@.kernel.current_thread && self@.kernel.threads[i as int].state
                        == ThreadState::Ready);
                    assert(s_has_other_ready(self@.kernel));
                }
            }
            i = i + 1;
        }
        if has_ready {
            self.context_switch();
        }
        proof {
            assert(self@ =~= s_preempt(old(self)@));
        }
    }

    /// Run one host frame of guest time.
    pub fn run_frame(&mut self)
        requires
            old(self)@.wf(),
        ensures
            final(self)@ == s_run_frame(old(self)@),
            final(self)@.wf(),
    {
        if !self.running {
            return ;
        }

        self.kernel.wake_expired_sleepers(SLEEP_TICK_NS);

        let target = self.cpu.cycles.wrapping_add(CYCLES_PER_FRAME);
        self.slice_start = self.cpu.cycles;

        let mut budget: u64 = CYCLES_PER_FRAME;
        while self.cpu.cycles < target && self.running && budget > 0
            invariant
                self@.wf(),
                budget <= CYCLES_PER_FRAME,
                ({
                    let e1 = EmuSnap {
                        kernel: KernelSnap {
                            threads: s_wake_expired(old(self)@.kernel.threads, SLEEP_TICK_NS),
                            ..old(self)@.kernel
                        },
                        ..old(self)@
                    };
                    let target0 = e1.cpu.cycles.wrapping_add(CYCLES_PER_FRAME);
                    let e2 = EmuSnap { slice_start: e1.cpu.cycles, ..e1 };
                    target == target0 && s_run_loop(e2, target0, CYCLES_PER_FRAME as nat)
                        == s_run_loop(self@, target0, budget as nat)
                }),
            decreases budget,
        {
            let ghost epre = self@;
            if self.cpu.halted {
                self.cpu.halted = false;
                self.context_switch();
                if self.cpu.halted {
                    self.cpu.cycles = target;
                    proof {
                        assert(s_run_loop(epre, target, budget as nat) =~= self@);
                        assert(s_run_loop(self@, target, (budget - 1) as nat) == self@);
                    }
                } else {
                    self.step();
                    if self.cpu.cycles.wrapping_sub(self.slice_start) >= TIMESLICE_CYCLES {
                        self.preempt();
                        let c = self.cpu.cycles;
                        self.slice_start = c;
                    }
                    proof {
                        assert(s_run_loop(epre, target, budget as nat) == s_run_loop(
                            self@,
                            target,
                            (budget - 1) as nat,
                        ));
                    }
                }
            } else {
                self.step();
                if self.cpu.cycles.wrapping_sub(self.slice_start) >= TIMESLICE_CYCLES {
                    self.preempt();
                    let c = self.cpu.cycles;
                    self.slice_start = c;
                }
                proof {
                    assert(s_run_loop(epre, target, budget as nat) == s_run_loop(
                        self@,
                        target,
                        (budget - 1) as nat,
                    ));
                }
            }
            budget = budget - 1;
        }

        self.hw.tick(CYCLES_PER_FRAME);

        let apt_sig = self.services.apt_signal_event;
        self.signal_event_handle(apt_sig);
        match self.services.gsp_interrupt_handle {
            Some(gsp_h) => {
                self.signal_event_handle(gsp_h);
            },
            None => {},
        }

        if self.services.hid_shm_addr != 0 {
            let addr = self.services.hid_shm_addr;
            let buttons = self.services.buttons;
            crate::services::hid::update_shared_memory(&mut self.mem, addr, buttons);
        }
        proof {
            assert(self@ =~= s_run_frame(old(self)@));
        }
    }

    pub fn set_buttons(&mut self, buttons: u32)
        ensures
            final(self)@ == (EmuSnap {
                services: ServiceManager { buttons, ..old(self)@.services },
                ..old(self)@
            }),
    {
        self.services.set_buttons(buttons);
        proof {
            assert(self@ =~= (EmuSnap {
                services: ServiceManager { buttons, ..old(self)@.services },
                ..old(self)@
            }));
        }
    }

    /// The top screen's framebuffer bytes, read from the captured address.
    pub fn get_fb_top(&self) -> (r: Vec<u8>)
        requires
            self@.wf(),
        ensures
            r@.len() == TOP_FB_SIZE,
            forall|i: int|
                0 <= i < TOP_FB_SIZE ==> r@[i] == s_mem_read8(
                    self@.mem,
                    self@.services.top_fb_addr.wrapping_add(i as u32),
                ),
    {
        self.mem.read_block(self.services.top_fb_addr, TOP_FB_SIZE)
    }

    /// The bottom screen's framebuffer bytes.
    pub fn get_fb_bottom(&self) -> (r: Vec<u8>)
        requires
            self@.wf(),
        ensures
            r@.len() == BOT_FB_SIZE,
            forall|i: int|
                0 <= i < BOT_FB_SIZE ==> r@[i] == s_mem_read8(
                    self@.mem,
                    self@.services.bot_fb_addr.wrapping_add(i as u32),
                ),
    {
        self.mem.read_block(self.services.bot_fb_addr, BOT_FB_SIZE)
    }

    /// Return to the reset state: a fresh machine with the system services
    /// re-created.
    pub fn reset(&mut self)
        ensures
            final(self)@ == s_init_system_services(
                EmuSnap {
                    cpu: crate::cpu::s_cpu_new(),
                    mem: s_mem_new(),
                    kernel: s_kernel_new(),
                    services: s_services_new(),
                    timer_cycles: 0,
                    running: false,
                    svc_log: Seq::empty(),
                    ipc_log: Seq::empty(),
                    trace_log: Seq::empty(),
                    slice_start: 0,
                    last_failed_port: Seq::empty(),
                },
            ),
            final(self)@.wf(),
    {
        self.cpu = Cpu::new();
        self.mem = Memory::new();
        self.kernel = Kernel::new();
        self.services = ServiceManager::new();
        self.hw = Hardware::new();
        self.running = false;
        self.svc_log = Vec::new();
        self.ipc_log = Vec::new();
        self.trace_log = Vec::new();
        self.slice_start = 0;
        self.last_failed_port = Vec::new();
        proof {
            assert(self@.svc_log =~= Seq::<(u32, u32, u32)>::empty());
            assert(self@.ipc_log =~= Seq::<(Seq<u8>, u16)>::empty());
            assert(self@.trace_log =~= Seq::<(u32, u32, bool)>::empty());
            assert(self@.last_failed_port =~= Seq::<u8>::empty());
        }
        self.init_system_services();
    }
}

/// Loading an executable into a stopped machine, as one transition.
pub open spec fn s_load_3dsx(e: EmuSnap, data: Seq<u8>) -> (EmuSnap, bool) {
    if !(data.len() >= threedsx::HEADER_SIZE && threedsx::s_check_magic(data)
        && threedsx::s_load_fits(data)) {
        (e, false)
    } else {
        let entry = crate::memory::VADDR_CODE_BASE;
        let m1 = threedsx::s_load_mem(data, e.mem, entry);
        let pid = e.kernel.next_process_id;
        let k1 = KernelSnap { next_process_id: s_sat_inc(e.kernel.next_process_id), ..e.kernel };
        let tid = k1.next_thread_id;
        let k2 = KernelSnap { next_thread_id: s_sat_inc(k1.next_thread_id), ..k1 };
        let stack_base = m1.heap_end;
        let m2 = MemSnap { heap_end: m1.heap_end.wrapping_add(s_page_align(0x1_0000)), ..m1 };
        let stack_top = stack_base.wrapping_add(0x1_0000);
        let k3 = KernelSnap {
            threads: k2.threads.push(s_thread_new(tid, pid, entry, stack_top, 0x30)),
            current_thread: 0,
            ..k2
        };
        let k4 = KernelSnap {
            threads: k3.threads.update(
                0,
                ThreadSnap { state: ThreadState::Running, ..k3.threads[0] },
            ),
            ..k3
        };
        let c1 = s_switch_mode(e.cpu, MODE_SYS);
        let c2 = CpuSnap { cpsr: c1.cpsr & !(CPSR_I | CPSR_F), ..c1 };
        let c3 = s_with_reg(c2, 15, entry);
        let c4 = s_with_reg(c3, 13, stack_top);
        let c5 = CpuSnap {
            cp15: s_cp15_write(c4.cp15, 13, 0, 0, 3, crate::memory::VADDR_TLS_BASE),
            ..c4
        };
        (EmuSnap { cpu: c5, mem: m2, kernel: k4, running: true, ..e }, true)
    }
}


/// The view of one hexadecimal digit as a character.
pub open spec fn s_hexdig_chars(d: u32) -> Seq<char> {
    if d == 0 { ("0")@ } else if d == 1 { ("1")@ } else if d == 2 { ("2")@ }
    else if d == 3 { ("3")@ } else if d == 4 { ("4")@ } else if d == 5 { ("5")@ }
    else if d == 6 { ("6")@ } else if d == 7 { ("7")@ } else if d == 8 { ("8")@ }
    else if d == 9 { ("9")@ } else if d == 10 { ("A")@ } else if d == 11 { ("B")@ }
    else if d == 12 { ("C")@ } else if d == 13 { ("D")@ } else if d == 14 { ("E")@ }
    else { ("F")@ }
}

/// A word rendered as eight hexadecimal characters, high digits first,
/// from position `i`.
pub open spec fn s_hex_run(x: u32, i: int) -> Seq<char>
    decreases 8 - i,
{
    if i >= 8 || i < 0 {
        Seq::empty()
    } else {
        s_hexdig_chars((x >> (((7 - i) * 4) as u32)) & 0xF) + s_hex_run(x, i + 1)
    }
}

/// A decimal rendering of an unsigned number.
pub open spec fn s_dec_chars(n: int) -> Seq<char>
    decreases n,
{
    if n < 10 {
        s_decdig_chars(n)
    } else {
        s_dec_chars(n / 10) + s_decdig_chars(n % 10)
    }
}

/// The view of one decimal digit as a character.
pub open spec fn s_decdig_chars(d: int) -> Seq<char> {
    if d == 0 { ("0")@ } else if d == 1 { ("1")@ } else if d == 2 { ("2")@ }
    else if d == 3 { ("3")@ } else if d == 4 { ("4")@ } else if d == 5 { ("5")@ }
    else if d == 6 { ("6")@ } else if d == 7 { ("7")@ } else if d == 8 { ("8")@ }
    else { ("9")@ }
}

/// Bytes rendered as pairs of hexadecimal characters, from position `i`.
pub open spec fn s_bytes_hex(b: Seq<u8>, i: int) -> Seq<char>
    decreases b.len() - i,
{
    if i < 0 || i >= b.len() {
        Seq::empty()
    } else {
        s_hexdig_chars((b[i] as u32) >> 4u32) + s_hexdig_chars((b[i] as u32) & 0xF)
            + s_bytes_hex(b, i + 1)
    }
}

/// The name of a processor mode.
pub open spec fn s_mode_chars(mode: u32) -> Seq<char> {
    if mode == 0x10 { ("USR")@ } else if mode == 0x11 { ("FIQ")@ }
    else if mode == 0x12 { ("IRQ")@ } else if mode == 0x13 { ("SVC")@ }
    else if mode == 0x17 { ("ABT")@ } else if mode == 0x1B { ("UND")@ }
    else if mode == 0x1F { ("SYS")@ } else { ("???")@ }
}

/// The saved registers rendered from index `i`.
pub open spec fn s_regs_chars(regs: Seq<u32>, i: int) -> Seq<char>
    decreases 13 - i,
{
    if i >= 13 || i < 0 {
        Seq::empty()
    } else {
        ("R")@ + s_dec_chars(i) + ("=")@ + s_hex_run(regs[i], 0) + (" ")@ + s_regs_chars(
            regs,
            i + 1,
        )
    }
}

/// The count of nonzero bytes among the `n` bytes from `addr`.
pub open spec fn s_nonzero_bytes(m: MemSnap, addr: u32, n: int) -> int
    decreases n,
{
    if n <= 0 {
        0
    } else {
        s_nonzero_bytes(m, addr, n - 1) + (if s_mem_read8(m, addr.wrapping_add((n - 1) as u32))
            != 0 {
            1int
        } else {
            0int
        })
    }
}

/// The supervisor-call ring rendered from entry `i`.
pub open spec fn s_svc_log_chars(log: Seq<(u32, u32, u32)>, i: int) -> Seq<char>
    decreases log.len() - i,
{
    if i < 0 || i >= log.len() {
        Seq::empty()
    } else {
        ("  ")@ + s_hex_run(log[i].0, 0) + (" in=")@ + s_hex_run(log[i].1, 0) + (" => ")@
            + s_hex_run(log[i].2, 0) + ("\n")@ + s_svc_log_chars(log, i + 1)
    }
}

/// The IPC ring rendered from entry `i` (service names in hexadecimal, since
/// a guest may hand over arbitrary bytes).
pub open spec fn s_ipc_log_chars(log: Seq<(Seq<u8>, u16)>, i: int) -> Seq<char>
    decreases log.len() - i,
{
    if i < 0 || i >= log.len() {
        Seq::empty()
    } else {
        ("  ")@ + s_bytes_hex(log[i].0, 0) + (":")@ + s_hex_run(log[i].1 as u32, 0) + ("\n")@
            + s_ipc_log_chars(log, i + 1)
    }
}

/// The instruction trace rendered from entry `i`.
pub open spec fn s_trace_chars(log: Seq<(u32, u32, bool)>, i: int) -> Seq<char>
    decreases log.len() - i,
{
    if i < 0 || i >= log.len() {
        Seq::empty()
    } else {
        (if log[i].2 { ("  T ")@ } else { ("  A ")@ }) + s_hex_run(log[i].0, 0) + (": ")@
            + s_hex_run(log[i].1, 0) + ("\n")@ + s_trace_chars(log, i + 1)
    }
}

/// The status header of the snapshot.
pub open spec fn s_debug_header(e: EmuSnap) -> Seq<char> {
    ("PC=")@ + s_hex_run(e.cpu.regs[15], 0) + (" SP=")@ + s_hex_run(e.cpu.regs[13], 0) + (" LR=")@
        + s_hex_run(e.cpu.regs[14], 0) + (" CPSR=")@ + s_hex_run(e.cpu.cpsr, 0) + ("\n")@
        + ("mode=")@ + s_mode_chars(e.cpu.cpsr & 0x1F) + (" ")@ + (if s_in_thumb(e.cpu) {
        ("T")@
    } else {
        ("A")@
    }) + (" cyc=")@ + s_dec_chars(e.cpu.cycles as int) + (" thr=")@ + s_dec_chars(
        e.kernel.threads.len() as int,
    ) + ("\n")@ + s_regs_chars(e.cpu.regs, 0) + ("\n")@ + ("FB top=")@ + s_hex_run(
        e.services.top_fb_addr,
        0,
    ) + (" bot=")@ + s_hex_run(e.services.bot_fb_addr, 0) + (" pixels=")@ + s_dec_chars(
        s_nonzero_bytes(e.mem, e.services.top_fb_addr, TOP_FB_SIZE as int),
    ) + ("\n")@ + ("heap=")@ + s_hex_run(e.mem.heap_end, 0) + ("\n")@
}

/// The whole debug snapshot: the status header, the last failed port
/// connection, and the three diagnostic rings.
pub open spec fn s_debug_text(e: EmuSnap) -> Seq<char> {
    s_debug_header(e) + (if e.last_failed_port.len() > 0 {
        ("PortFail: ")@ + s_bytes_hex(e.last_failed_port, 0) + ("\n")@
    } else {
        Seq::<char>::empty()
    }) + (if e.ipc_log.len() > 0 {
        ("IPC:\n")@ + s_ipc_log_chars(e.ipc_log, 0)
    } else {
        Seq::<char>::empty()
    }) + (if e.svc_log.len() > 0 {
        ("SVCs:\n")@ + s_svc_log_chars(e.svc_log, 0)
    } else {
        Seq::<char>::empty()
    }) + (if e.trace_log.len() > 0 {
        ("Trace:\n")@ + s_trace_chars(e.trace_log, 0)
    } else {
        Seq::<char>::empty()
    })
}

/// Append one hexadecimal digit./// Append one hexadecimal digit.
fn append_hexdig(s: &mut String, d: u32)
    ensures
        final(s)@ == old(s)@ + s_hexdig_chars(d),
{
    if d == 0 { s.append("0"); } else if d == 1 { s.append("1"); }
    else if d == 2 { s.append("2"); } else if d == 3 { s.append("3"); }
    else if d == 4 { s.append("4"); } else if d == 5 { s.append("5"); }
    else if d == 6 { s.append("6"); } else if d == 7 { s.append("7"); }
    else if d == 8 { s.append("8"); } else if d == 9 { s.append("9"); }
    else if d == 10 { s.append("A"); } else if d == 11 { s.append("B"); }
    else if d == 12 { s.append("C"); } else if d == 13 { s.append("D"); }
    else if d == 14 { s.append("E"); } else { s.append("F"); }
}

/// Append a word as eight hexadecimal characters.
fn append_hex8(s: &mut String, x: u32)
    ensures
        final(s)@ == old(s)@ + s_hex_run(x, 0),
{
    let mut i: u32 = 0;
    while i < 8
        invariant
            i <= 8,
            old(s)@ + s_hex_run(x, 0) == s@ + s_hex_run(x, i as int),
        decreases 8 - i,
    {
        let d = (x >> ((7 - i) * 4)) & 0xF;
        proof {
            crate::bits::lemma_and_mask_le(x >> ((7 - i) * 4), 0xF);
        }
        let ghost prev = s@;
        append_hexdig(s, d);
        proof {
            assert(prev + (s_hexdig_chars(d) + s_hex_run(x, i + 1)) =~= s@ + s_hex_run(x, i + 1));
        }
        i = i + 1;
    }
    proof {
        assert(s_hex_run(x, 8) =~= Seq::<char>::empty());
        assert(s@ + Seq::<char>::empty() =~= s@);
    }
}

/// Append one decimal digit.
fn append_decdig(s: &mut String, d: u64)
    requires
        d < 10,
    ensures
        final(s)@ == old(s)@ + s_decdig_chars(d as int),
{
    if d == 0 { s.append("0"); } else if d == 1 { s.append("1"); }
    else if d == 2 { s.append("2"); } else if d == 3 { s.append("3"); }
    else if d == 4 { s.append("4"); } else if d == 5 { s.append("5"); }
    else if d == 6 { s.append("6"); } else if d == 7 { s.append("7"); }
    else if d == 8 { s.append("8"); } else { s.append("9"); }
}

/// Append a number in decimal.
fn append_dec(s: &mut String, n: u64)
    ensures
        final(s)@ == old(s)@ + s_dec_chars(n as int),
    decreases n,
{
    if n >= 10 {
        append_dec(s, n / 10);
    }
    let ghost mid = s@;
    append_decdig(s, n % 10);
    proof {
        if n >= 10 {
            assert(mid + s_decdig_chars((n % 10) as int) =~= old(s)@ + (s_dec_chars((n / 10) as int)
                + s_decdig_chars((n % 10) as int)));
        }
    }
}

/// Append bytes as pairs of hexadecimal characters.
fn append_bytes_hex(s: &mut String, b: &Vec<u8>)
    ensures
        final(s)@ == old(s)@ + s_bytes_hex(b@, 0),
{
    let n = b.len();
    let mut i: usize = 0;
    while i < n
        invariant
            i <= n,
            n == b@.len(),
            old(s)@ + s_bytes_hex(b@, 0) == s@ + s_bytes_hex(b@, i as int),
        decreases n - i,
    {
        let by = b[i] as u32;
        let ghost prev = s@;
        proof {
            crate::bits::lemma_and_mask_le(by, 0xF);
            assert(by >> 4u32 < 16) by (bit_vector)
                requires
                    by < 256,
            ;
        }
        append_hexdig(s, by >> 4);
        append_hexdig(s, by & 0xF);
        proof {
            assert(prev + (s_hexdig_chars(by >> 4u32) + s_hexdig_chars(by & 0xF) + s_bytes_hex(
                b@,
                i + 1,
            )) =~= s@ + s_bytes_hex(b@, i + 1));
        }
        i = i + 1;
    }
    proof {
        assert(s_bytes_hex(b@, n as int) =~= Seq::<char>::empty());
        assert(s@ + Seq::<char>::empty() =~= s@);
    }
}

impl Emulator {
    /// Count the nonzero bytes of the top framebuffer.
    fn nonzero_fb_bytes(&self) -> (r: u64)
        requires
            self@.wf(),
        ensures
            r == s_nonzero_bytes(self@.mem, self@.services.top_fb_addr, TOP_FB_SIZE as int),
    {
        let addr = self.services.top_fb_addr;
        let mut r: u64 = 0;
        let mut i: usize = 0;
        while i < TOP_FB_SIZE
            invariant
                i <= TOP_FB_SIZE,
                self@.wf(),
                addr == self@.services.top_fb_addr,
                r == s_nonzero_bytes(self@.mem, addr, i as int),
                r <= i,
            decreases TOP_FB_SIZE - i,
        {
            let b = self.mem.read8(addr.wrapping_add(i as u32));
            if b != 0 {
                r = r + 1;
            }
            i = i + 1;
        }
        r
    }

    /// The status header of the debug snapshot: program state, mode, cycle
    /// and thread counts, the register file, the framebuffer pointers with a
    /// nonzero-byte count, and the heap mark.
    #[verifier::rlimit(100)]
    fn debug_header(&self) -> (r: String)
        requires
            self@.wf(),
        ensures
            r@ == s_debug_header(self@),
    {
        let mut s = String::new();
        s.append("PC=");
        append_hex8(&mut s, self.cpu.regs[15]);
        s.append(" SP=");
        append_hex8(&mut s, self.cpu.regs[13]);
        s.append(" LR=");
        append_hex8(&mut s, self.cpu.regs[14]);
        s.append(" CPSR=");
        append_hex8(&mut s, self.cpu.cpsr);
        s.append("\n");
        s.append("mode=");
        let mode = self.cpu.mode();
        if mode == 0x10 { s.append("USR"); } else if mode == 0x11 { s.append("FIQ"); }
        else if mode == 0x12 { s.append("IRQ"); } else if mode == 0x13 { s.append("SVC"); }
        else if mode == 0x17 { s.append("ABT"); } else if mode == 0x1B { s.append("UND"); }
        else if mode == 0x1F { s.append("SYS"); } else { s.append("???"); }
        s.append(" ");
        if self.cpu.in_thumb_mode() {
            s.append("T");
        } else {
            s.append("A");
        }
        s.append(" cyc=");
        append_dec(&mut s, self.cpu.cycles);
        s.append(" thr=");
        append_dec(&mut s, self.kernel.threads.len() as u64);
        s.append("\n");

        let ghost base_regs = s@;
        let mut i: usize = 0;
        while i < 13
            invariant
                i <= 13,
                self@.wf(),
                base_regs + s_regs_chars(self@.cpu.regs, 0) == s@ + s_regs_chars(
                    self@.cpu.regs,
                    i as int,
                ),
            decreases 13 - i,
        {
            let ghost prev = s@;
            s.append("R");
            append_dec(&mut s, i as u64);
            s.append("=");
            let v = self.cpu.regs[i];
            append_hex8(&mut s, v);
            s.append(" ");
            proof {
                assert(prev + (("R")@ + s_dec_chars(i as int) + ("=")@ + s_hex_run(v, 0) + (" ")@
                    + s_regs_chars(self@.cpu.regs, i + 1)) =~= s@ + s_regs_chars(
                    self@.cpu.regs,
                    i + 1,
                ));
            }
            i = i + 1;
        }
        proof {
            assert(s_regs_chars(self@.cpu.regs, 13) =~= Seq::<char>::empty());
            assert(s@ + Seq::<char>::empty() =~= s@);
        }
        s.append("\n");

        s.append("FB top=");
        append_hex8(&mut s, self.services.top_fb_addr);
        s.append(" bot=");
        append_hex8(&mut s, self.services.bot_fb_addr);
        s.append(" pixels=");
        let nz = self.nonzero_fb_bytes();
        append_dec(&mut s, nz);
        s.append("\n");
        s.append("heap=");
        append_hex8(&mut s, self.mem.heap_end());
        s.append("\n");
        proof {
            assert(s@ =~= s_debug_header(self@));
        }
        s
    }

    /// Append the failed-port note, when there is one.
    fn append_port_fail(&self, s: &mut String)
        ensures
            final(s)@ == old(s)@ + (if self@.last_failed_port.len() > 0 {
                ("PortFail: ")@ + s_bytes_hex(self@.last_failed_port, 0) + ("\n")@
            } else {
                Seq::<char>::empty()
            }),
    {
        if self.last_failed_port.len() > 0 {
            s.append("PortFail: ");
            append_bytes_hex(s, &self.last_failed_port);
            s.append("\n");
            proof {
                assert(s@ =~= old(s)@ + (("PortFail: ")@ + s_bytes_hex(
                    self@.last_failed_port,
                    0,
                ) + ("\n")@));
            }
        } else {
            proof {
                assert(s@ =~= old(s)@ + Seq::<char>::empty());
            }
        }
    }

    /// Append the IPC ring, when it is nonempty.
    fn append_ipc_section(&self, s: &mut String)
        ensures
            final(s)@ == old(s)@ + (if self@.ipc_log.len() > 0 {
                ("IPC:\n")@ + s_ipc_log_chars(self@.ipc_log, 0)
            } else {
                Seq::<char>::empty()
            }),
    {
        if self.ipc_log.len() > 0 {
            s.append("IPC:\n");
            let ghost base_ipc = s@;
            let n = self.ipc_log.len();
            let mut j: usize = 0;
            while j < n
                invariant
                    j <= n,
                    n == self.ipc_log@.len(),
                    base_ipc + s_ipc_log_chars(self@.ipc_log, 0) == s@ + s_ipc_log_chars(
                        self@.ipc_log,
                        j as int,
                    ),
                decreases n - j,
            {
                let ghost prev = s@;
                s.append("  ");
                append_bytes_hex(s, &self.ipc_log[j].0);
                s.append(":");
                let c = self.ipc_log[j].1;
                append_hex8(s, c as u32);
                s.append("\n");
                proof {
                    assert(prev + (("  ")@ + s_bytes_hex(self@.ipc_log[j as int].0, 0) + (":")@
                        + s_hex_run(c as u32, 0) + ("\n")@ + s_ipc_log_chars(
                        self@.ipc_log,
                        j + 1,
                    )) =~= s@ + s_ipc_log_chars(self@.ipc_log, j + 1));
                }
                j = j + 1;
            }
            proof {
                assert(s_ipc_log_chars(self@.ipc_log, n as int) =~= Seq::<char>::empty());
                assert(s@ + Seq::<char>::empty() =~= s@);
            }
        } else {
            proof {
                assert(s@ =~= old(s)@ + Seq::<char>::empty());
            }
        }
    }

    /// Append the supervisor-call ring, when it is nonempty.
    fn append_svc_section(&self, s: &mut String)
        ensures
            final(s)@ == old(s)@ + (if self@.svc_log.len() > 0 {
                ("SVCs:\n")@ + s_svc_log_chars(self@.svc_log, 0)
            } else {
                Seq::<char>::empty()
            }),
    {
        if self.svc_log.len() > 0 {
            s.append("SVCs:\n");
            let ghost base_svc = s@;
            let n = self.svc_log.len();
            let mut j: usize = 0;
            while j < n
                invariant
                    j <= n,
                    n == self.svc_log@.len(),
                    base_svc + s_svc_log_chars(self@.svc_log, 0) == s@ + s_svc_log_chars(
                        self@.svc_log,
                        j as int,
                    ),
                decreases n - j,
            {
                let ghost prev = s@;
                let entry = self.svc_log[j];
                s.append("  ");
                append_hex8(s, entry.0);
                s.append(" in=");
                append_hex8(s, entry.1);
                s.append(" => ");
                append_hex8(s, entry.2);
                s.append("\n");
                proof {
                    assert(prev + (("  ")@ + s_hex_run(entry.0, 0) + (" in=")@ + s_hex_run(
                        entry.1,
                        0,
                    ) + (" => ")@ + s_hex_run(entry.2, 0) + ("\n")@ + s_svc_log_chars(
                        self@.svc_log,
                        j + 1,
                    )) =~= s@ + s_svc_log_chars(self@.svc_log, j + 1));
                }
                j = j + 1;
            }
            proof {
                assert(s_svc_log_chars(self@.svc_log, n as int) =~= Seq::<char>::empty());
                assert(s@ + Seq::<char>::empty() =~= s@);
            }
        } else {
            proof {
                assert(s@ =~= old(s)@ + Seq::<char>::empty());
            }
        }
    }

    /// Append the instruction trace, when it is nonempty.
    fn append_trace_section(&self, s: &mut String)
        ensures
            final(s)@ == old(s)@ + (if self@.trace_log.len() > 0 {
                ("Trace:\n")@ + s_trace_chars(self@.trace_log, 0)
            } else {
                Seq::<char>::empty()
            }),
    {
        if self.trace_log.len() > 0 {
            s.append("Trace:\n");
            let ghost base_tr = s@;
            let n = self.trace_log.len();
            let mut j: usize = 0;
            while j < n
                invariant
                    j <= n,
                    n == self.trace_log@.len(),
                    base_tr + s_trace_chars(self@.trace_log, 0) == s@ + s_trace_chars(
                        self@.trace_log,
                        j as int,
                    ),
                decreases n - j,
            {
                let ghost prev = s@;
                let entry = self.trace_log[j];
                if entry.2 {
                    s.append("  T ");
                } else {
                    s.append("  A ");
                }
                append_hex8(s, entry.0);
                s.append(": ");
                append_hex8(s, entry.1);
                s.append("\n");
                proof {
                    assert(prev + ((if entry.2 { ("  T ")@ } else { ("  A ")@ }) + s_hex_run(
                        entry.0,
                        0,
                    ) + (": ")@ + s_hex_run(entry.1, 0) + ("\n")@ + s_trace_chars(
                        self@.trace_log,
                        j + 1,
                    )) =~= s@ + s_trace_chars(self@.trace_log, j + 1));
                }
                j = j + 1;
            }
            proof {
                assert(s_trace_chars(self@.trace_log, n as int) =~= Seq::<char>::empty());
                assert(s@ + Seq::<char>::empty() =~= s@);
            }
        } else {
            proof {
                assert(s@ =~= old(s)@ + Seq::<char>::empty());
            }
        }
    }

    /// A human-readable snapshot of the machine: registers and status, the
    /// framebuffer pointers with a nonzero-byte count, the heap mark, the
    /// last failed port connection (its name in hexadecimal, as guests may
    /// hand over arbitrary bytes), and the IPC, supervisor-call and
    /// instruction-trace rings.
    pub fn debug_info(&self) -> (r: String)
        requires
            self@.wf(),
        ensures
            r@ == s_debug_text(self@),
    {
        let mut s = self.debug_header();
        self.append_port_fail(&mut s);
        self.append_ipc_section(&mut s);
        self.append_svc_section(&mut s);
        self.append_trace_section(&mut s);
        proof {
            assert(s@ =~= s_debug_text(self@));
        }
        s
    }
}

} // verus!
