use citrine::cpu::Cpu;
use citrine::kernel::sync::{
    acquire, clear_event, release, AcquireResult, EventState, MutexState, ResetType,
    SemaphoreState, SyncObject,
};
use citrine::kernel::thread::{Thread, ThreadState, WaitReason};
use citrine::kernel::process::Process;
use citrine::kernel::svc::{self, RESULT_NOT_FOUND, RESULT_OUT_OF_RANGE, RESULT_SUCCESS};
use citrine::kernel::ipc::{make_header, IpcCommand, IPC_BUFFER_ADDR};
use citrine::kernel::{HandleEntry, Kernel};
use citrine::memory::Memory;

#[test]
fn handle_allocate_and_get() {
    let mut kernel = Kernel::new();
    let h = kernel.allocate_handle(HandleEntry::Event(1));
    assert!(kernel.get_handle(h).is_some());
}

#[test]
fn handle_close() {
    let mut kernel = Kernel::new();
    let h = kernel.allocate_handle(HandleEntry::Timer);
    assert!(kernel.close_handle(h));
    assert!(kernel.get_handle(h).is_none());
}

#[test]
fn port_registration() {
    let mut kernel = Kernel::new();
    kernel.register_port("srv:");
    let session = kernel.connect_to_port("srv:");
    assert!(session.is_some());
}

#[test]
fn close_is_idempotent() {
    let mut kernel = Kernel::new();
    let h = kernel.allocate_handle(HandleEntry::Timer);
    assert!(kernel.get_handle(h).is_some());
    assert!(kernel.close_handle(h));
    assert!(kernel.get_handle(h).is_none());
    assert!(!kernel.close_handle(h));
    assert!(kernel.get_handle(h).is_none());
}

#[test]
fn connect_to_unknown_port_fails() {
    let mut kernel = Kernel::new();
    assert!(kernel.connect_to_port("nosuch:").is_none());
}

#[test]
fn mutex_acquire_release() {
    let mut m = SyncObject::Mutex(MutexState::new());
    assert_eq!(acquire(&mut m, 1), AcquireResult::Success);
    assert_eq!(acquire(&mut m, 2), AcquireResult::WouldBlock);
    assert_eq!(acquire(&mut m, 1), AcquireResult::Success);
    let w = release(&mut m, 1);
    assert!(w.is_empty());
    let w = release(&mut m, 1);
    assert_eq!(w, vec![2]);
}

#[test]
fn semaphore_acquire_release() {
    let mut s = SyncObject::Semaphore(SemaphoreState::new(2, 5));
    assert_eq!(acquire(&mut s, 1), AcquireResult::Success);
    assert_eq!(acquire(&mut s, 2), AcquireResult::Success);
    assert_eq!(acquire(&mut s, 3), AcquireResult::WouldBlock);
    let w = release(&mut s, 0);
    assert_eq!(w, vec![3]);
}

#[test]
fn event_oneshot() {
    let mut e = SyncObject::Event(EventState::new(ResetType::OneShot));
    assert_eq!(acquire(&mut e, 1), AcquireResult::WouldBlock);
    let w = release(&mut e, 0);
    assert_eq!(w, vec![1]);
    assert_eq!(acquire(&mut e, 2), AcquireResult::WouldBlock);
}

#[test]
fn event_sticky() {
    let mut e = SyncObject::Event(EventState::new(ResetType::Sticky));
    let _ = acquire(&mut e, 1);
    let _ = acquire(&mut e, 2);
    let w = release(&mut e, 0);
    assert_eq!(w.len(), 2);
    assert_eq!(acquire(&mut e, 3), AcquireResult::Success);
}

#[test]
fn clear_event_resets() {
    let mut e = SyncObject::Event(EventState::new(ResetType::Sticky));
    let _ = release(&mut e, 0);
    assert_eq!(acquire(&mut e, 1), AcquireResult::Success);
    clear_event(&mut e);
    assert_eq!(acquire(&mut e, 2), AcquireResult::WouldBlock);
}

#[test]
fn mutex_recursive_balance_leaves_it_free() {
    // Two recursive acquires and two releases leave no owner and no waiters.
    let mut m = SyncObject::Mutex(MutexState::new());
    assert_eq!(acquire(&mut m, 7), AcquireResult::Success);
    assert_eq!(acquire(&mut m, 7), AcquireResult::Success);
    assert!(release(&mut m, 7).is_empty());
    assert!(release(&mut m, 7).is_empty());
    match &m {
        SyncObject::Mutex(st) => {
            assert_eq!(st.owner_thread, None);
            assert_eq!(st.lock_count, 0);
            assert!(st.waiting.is_empty());
        }
        _ => panic!("expected a mutex"),
    }
}

#[test]
fn semaphore_balance_restores_count() {
    // Three acquires from count 3 and three releases restore the count.
    let mut s = SyncObject::Semaphore(SemaphoreState::new(3, 8));
    for t in 1..=3 {
        assert_eq!(acquire(&mut s, t), AcquireResult::Success);
    }
    for _ in 0..3 {
        assert!(release(&mut s, 0).is_empty());
    }
    match &s {
        SyncObject::Semaphore(st) => assert_eq!(st.count, 3),
        _ => panic!("expected a semaphore"),
    }
}

#[test]
fn event_wakes_head_waiter_first() {
    let mut e = SyncObject::Event(EventState::new(ResetType::OneShot));
    assert_eq!(acquire(&mut e, 1), AcquireResult::WouldBlock);
    assert_eq!(acquire(&mut e, 2), AcquireResult::WouldBlock);
    assert_eq!(acquire(&mut e, 3), AcquireResult::WouldBlock);
    let w = release(&mut e, 0);
    assert_eq!(w, vec![1]);
}

#[test]
fn sticky_and_pulse_events_wake_all_in_order() {
    for reset in [ResetType::Sticky, ResetType::Pulse] {
        let mut e = SyncObject::Event(EventState::new(reset));
        assert_eq!(acquire(&mut e, 1), AcquireResult::WouldBlock);
        assert_eq!(acquire(&mut e, 2), AcquireResult::WouldBlock);
        assert_eq!(acquire(&mut e, 3), AcquireResult::WouldBlock);
        let w = release(&mut e, 0);
        assert_eq!(w, vec![1, 2, 3]);
    }
}

#[test]
fn new_thread_state() {
    let t = Thread::new(1, 1, 0x0010_0000, 0x0800_4000, 0x30);
    assert_eq!(t.id, 1);
    assert_eq!(t.state, ThreadState::Ready);
    assert_eq!(t.saved.pc(), 0x0010_0000);
    assert_eq!(t.saved.sp(), 0x0800_4000);
    assert_eq!(t.priority, 0x30);
}

#[test]
fn thumb_entrypoint() {
    let t = Thread::new(1, 1, 0x0010_0001, 0x0800_4000, 0x30);
    assert_eq!(t.saved.pc(), 0x0010_0000);
    assert!(t.saved.cpsr & (1 << 5) != 0);
}

#[test]
fn suspend_and_wake() {
    let mut t = Thread::new(1, 1, 0x0010_0000, 0x0800_4000, 0x30);
    t.suspend(WaitReason::Mutex(0x100));
    assert_eq!(t.state, ThreadState::Waiting);
    assert!(t.is_waiting_on(0x100));
    t.wake();
    assert_eq!(t.state, ThreadState::Ready);
}

#[test]
fn kill_thread() {
    let mut t = Thread::new(1, 1, 0x0010_0000, 0x0800_4000, 0x30);
    assert!(t.is_alive());
    t.kill();
    assert!(!t.is_alive());
    assert_eq!(t.state, ThreadState::Dead);
}

#[test]
fn save_restore_cpu() {
    let mut t = Thread::new(1, 1, 0x0010_0000, 0x0800_4000, 0x30);
    let mut regs = [0u32; 16];
    regs[0] = 0xDEAD;
    regs[15] = 0x0010_1000;
    t.save_cpu(&regs, 0x1F);
    let mut out_regs = [0u32; 16];
    let mut out_cpsr = 0u32;
    t.restore_into(&mut out_regs, &mut out_cpsr);
    assert_eq!(out_regs[0], 0xDEAD);
    assert_eq!(out_regs[15], 0x0010_1000);
    assert_eq!(out_cpsr, 0x1F);
}

#[test]
fn create_process() {
    let p = Process::new(1, "test.3dsx", 0x0010_0000, 0x0800_0000);
    assert_eq!(p.pid, 1);
    assert_eq!(p.name, b"test.3dsx".to_vec());
    assert_eq!(p.code_addr, 0x0010_0000);
    assert_eq!(p.heap_addr, 0x0800_0000);
}

#[test]
fn thread_management() {
    let mut p = Process::new(1, "test", 0x0010_0000, 0x0800_0000);
    p.add_thread(1);
    p.add_thread(2);
    assert_eq!(p.thread_ids.len(), 2);
    p.remove_thread(1);
    assert_eq!(p.thread_ids.len(), 1);
    assert_eq!(p.thread_ids[0], 2);
}

#[test]
fn code_and_heap_bounds() {
    let mut p = Process::new(1, "test", 0x0010_0000, 0x0800_0000);
    p.set_code_size(0x1000);
    p.set_heap_size(0x2000);
    assert_eq!(p.code_end(), 0x0010_1000);
    assert_eq!(p.heap_end(), 0x0800_2000);
}

#[test]
fn parse_ipc_command() {
    let mut mem = Memory::new();
    let header = make_header(0x0001, 2, 0);
    mem.write32(IPC_BUFFER_ADDR, header);
    mem.write32(IPC_BUFFER_ADDR + 4, 0xAAAA);
    mem.write32(IPC_BUFFER_ADDR + 8, 0xBBBB);

    let cmd = IpcCommand::parse(&mem);
    assert_eq!(cmd.command_id, 0x0001);
    assert_eq!(cmd.normal_params, 2);
    assert_eq!(cmd.translate_params, 0);
    assert_eq!(cmd.param(0), 0xAAAA);
    assert_eq!(cmd.param(1), 0xBBBB);
}

#[test]
fn write_response() {
    let mut mem = Memory::new();
    let header = make_header(0x0001, 2, 0);
    IpcCommand::write_response(&mut mem, header, 0, &[0x1234, 0x5678]);
    assert_eq!(mem.read32(IPC_BUFFER_ADDR + 4), 0);
    assert_eq!(mem.read32(IPC_BUFFER_ADDR + 8), 0x1234);
    assert_eq!(mem.read32(IPC_BUFFER_ADDR + 12), 0x5678);
}

#[test]
fn make_header_encoding() {
    let h = make_header(0x0042, 3, 1);
    assert_eq!((h >> 16) & 0xFFFF, 0x0042);
    assert_eq!((h >> 6) & 0x3F, 3);
    assert_eq!(h & 0x3F, 1);
}

#[test]
fn param_out_of_bounds() {
    let cmd = IpcCommand {
        header: 0,
        command_id: 0,
        normal_params: 0,
        translate_params: 0,
        params: vec![],
    };
    assert_eq!(cmd.param(99), 0);
}

#[test]
fn dispatch_system_tick() {
    let mut cpu = Cpu::new();
    let mut mem = Memory::new();
    let mut kernel = Kernel::new();
    cpu.cycles = 0x1_0000_ABCD;
    cpu.regs[14] = 0x0010_0004;
    svc::dispatch(&mut cpu, &mut mem, &mut kernel, 0x28);
    assert_eq!(cpu.regs[0], 0x0000_ABCD);
    assert_eq!(cpu.regs[1], 0x1);
}

#[test]
fn dispatch_create_thread() {
    let mut cpu = Cpu::new();
    let mut mem = Memory::new();
    let mut kernel = Kernel::new();
    cpu.regs[14] = 0x0010_0004;
    cpu.regs[1] = 0x0010_0000;
    cpu.regs[2] = 0;
    cpu.regs[3] = 0x0800_4000;
    cpu.regs[4] = 0x30;
    svc::dispatch(&mut cpu, &mut mem, &mut kernel, 0x08);
    assert_eq!(cpu.regs[0], RESULT_SUCCESS);
    assert!(cpu.regs[1] >= 0x100);
    assert_eq!(kernel.threads.len(), 1);
    assert_eq!(kernel.threads[0].priority, 0x30);
}

#[test]
fn dispatch_close_handle() {
    let mut cpu = Cpu::new();
    let mut mem = Memory::new();
    let mut kernel = Kernel::new();
    let h = kernel.allocate_handle(HandleEntry::Timer);
    cpu.regs[14] = 0x0010_0004;
    cpu.regs[0] = h;
    svc::dispatch(&mut cpu, &mut mem, &mut kernel, 0x23);
    assert_eq!(cpu.regs[0], RESULT_SUCCESS);
    assert!(kernel.get_handle(h).is_none());
}

#[test]
fn dispatch_create_event() {
    let mut cpu = Cpu::new();
    let mut mem = Memory::new();
    let mut kernel = Kernel::new();
    cpu.regs[14] = 0x0010_0004;
    cpu.regs[1] = 1;
    svc::dispatch(&mut cpu, &mut mem, &mut kernel, 0x17);
    assert_eq!(cpu.regs[0], RESULT_SUCCESS);
    assert!(cpu.regs[1] >= 0x100);
}

#[test]
fn dispatch_break_halts() {
    let mut cpu = Cpu::new();
    let mut mem = Memory::new();
    let mut kernel = Kernel::new();
    cpu.regs[14] = 0x0010_0004;
    svc::dispatch(&mut cpu, &mut mem, &mut kernel, 0x3D);
    assert!(cpu.halted);
}

#[test]
fn create_thread_beyond_cap_is_out_of_range() {
    let mut cpu = Cpu::new();
    let mut mem = Memory::new();
    let mut kernel = Kernel::new();
    cpu.regs[14] = 0x0010_0004;
    cpu.regs[1] = 0x0010_0000;
    cpu.regs[3] = 0x0800_4000;
    cpu.regs[4] = 0x30;
    for _ in 0..32 {
        svc::dispatch(&mut cpu, &mut mem, &mut kernel, 0x08);
        assert_eq!(cpu.regs[0], RESULT_SUCCESS);
    }
    svc::dispatch(&mut cpu, &mut mem, &mut kernel, 0x08);
    assert_eq!(cpu.regs[0], RESULT_OUT_OF_RANGE);
    assert_eq!(kernel.threads.len(), 32);
}

#[test]
fn release_mutex_with_bad_handle_is_invalid() {
    let mut cpu = Cpu::new();
    let mut mem = Memory::new();
    let mut kernel = Kernel::new();
    cpu.regs[14] = 0x0010_0004;
    cpu.regs[0] = 0x1234;
    svc::dispatch(&mut cpu, &mut mem, &mut kernel, 0x14);
    assert_eq!(cpu.regs[0], svc::RESULT_INVALID_HANDLE);
}

#[test]
fn connect_to_unknown_port_is_not_found() {
    let mut cpu = Cpu::new();
    let mut mem = Memory::new();
    let mut kernel = Kernel::new();
    cpu.regs[14] = 0x0010_0004;
    // The name pointer targets writable memory holding "zzz:\0".
    mem.write8(0x0800_0000, b'z');
    mem.write8(0x0800_0001, b'z');
    mem.write8(0x0800_0002, b'z');
    mem.write8(0x0800_0003, b':');
    mem.write8(0x0800_0004, 0);
    cpu.regs[1] = 0x0800_0000;
    svc::dispatch(&mut cpu, &mut mem, &mut kernel, 0x2D);
    assert_eq!(cpu.regs[0], RESULT_NOT_FOUND);
}

#[test]
fn sleep_thread_zero_yields() {
    // SleepThread with a zero duration reports success, requests a
    // reschedule, and leaves the thread Running until the reschedule point.
    let mut cpu = Cpu::new();
    let mut mem = Memory::new();
    let mut kernel = Kernel::new();
    kernel.threads.push(Thread::new(1, 1, 0x0010_0000, 0x0800_4000, 0x30));
    kernel.current_thread = 0;
    kernel.threads[0].state = ThreadState::Running;
    cpu.regs[14] = 0x0010_0004;
    cpu.regs[0] = 0;
    cpu.regs[1] = 0;
    svc::dispatch(&mut cpu, &mut mem, &mut kernel, 0x0A);
    assert_eq!(cpu.regs[0], RESULT_SUCCESS);
    assert!(kernel.needs_reschedule);
    assert_eq!(kernel.threads[0].state, ThreadState::Running);
}

#[test]
fn mutex_hand_off_via_svc() {
    // A mutex held by thread 1 is released while thread 2 waits on it:
    // ownership transfers to thread 2 with count 1 and thread 2 wakes.
    let mut cpu = Cpu::new();
    let mut mem = Memory::new();
    let mut kernel = Kernel::new();
    kernel.threads.push(Thread::new(1, 1, 0x0010_0000, 0x0800_4000, 0x30));
    kernel.threads.push(Thread::new(2, 1, 0x0010_0000, 0x0800_8000, 0x30));
    kernel.current_thread = 0;
    kernel.threads[0].state = ThreadState::Running;

    // Thread 1 creates the mutex already held.
    cpu.regs[14] = 0x0010_0004;
    cpu.regs[1] = 1;
    svc::dispatch(&mut cpu, &mut mem, &mut kernel, 0x13);
    let mutex_handle = cpu.regs[1];

    // Thread 2 waits on it and blocks.
    kernel.threads[0].state = ThreadState::Ready;
    kernel.threads[1].state = ThreadState::Running;
    kernel.current_thread = 1;
    cpu.regs[14] = 0x0010_0004;
    cpu.regs[0] = mutex_handle;
    svc::dispatch(&mut cpu, &mut mem, &mut kernel, 0x24);
    assert_eq!(kernel.threads[1].state, ThreadState::Waiting);
    assert_eq!(kernel.threads[1].wait_reason, WaitReason::Mutex(mutex_handle));

    // Thread 1 releases: thread 2 becomes the owner and wakes.
    kernel.threads[0].state = ThreadState::Running;
    kernel.current_thread = 0;
    cpu.regs[14] = 0x0010_0004;
    cpu.regs[0] = mutex_handle;
    svc::dispatch(&mut cpu, &mut mem, &mut kernel, 0x14);
    assert_eq!(cpu.regs[0], RESULT_SUCCESS);
    assert_eq!(kernel.threads[1].state, ThreadState::Ready);
    let sync_id = match kernel.get_handle(mutex_handle) {
        Some(HandleEntry::Mutex(id)) => *id,
        _ => panic!("expected a mutex handle"),
    };
    let obj = kernel
        .sync_objects
        .iter()
        .find(|p| p.0 == sync_id)
        .map(|p| &p.1)
        .unwrap();
    match obj {
        SyncObject::Mutex(st) => {
            assert_eq!(st.owner_thread, Some(2));
            assert_eq!(st.lock_count, 1);
        }
        _ => panic!("expected a mutex"),
    }
}

#[test]
fn wait_synchronization_n_session_is_immediate() {
    // WaitSynchronizationN with a session handle at index 2 answers that
    // index without blocking.
    let mut cpu = Cpu::new();
    let mut mem = Memory::new();
    let mut kernel = Kernel::new();
    kernel.threads.push(Thread::new(1, 1, 0x0010_0000, 0x0800_4000, 0x30));
    kernel.current_thread = 0;
    kernel.threads[0].state = ThreadState::Running;
    kernel.register_port("srv:");
    let session = kernel.connect_to_port("srv:").unwrap();

    let handles_ptr = 0x0800_0000;
    mem.write32(handles_ptr, 1);
    mem.write32(handles_ptr + 4, 2);
    mem.write32(handles_ptr + 8, session);
    cpu.regs[14] = 0x0010_0004;
    cpu.regs[1] = handles_ptr;
    cpu.regs[2] = 3;
    svc::dispatch(&mut cpu, &mut mem, &mut kernel, 0x25);
    assert_eq!(cpu.regs[0], RESULT_SUCCESS);
    assert_eq!(cpu.regs[1], 2);
    assert_eq!(kernel.threads[0].state, ThreadState::Running);
}

#[test]
fn scheduler_picks_lowest_priority_value() {
    let mut kernel = Kernel::new();
    kernel.threads.push(Thread::new(1, 1, 0x0010_0000, 0x0800_4000, 0x30));
    kernel.threads.push(Thread::new(2, 1, 0x0010_0000, 0x0800_8000, 0x10));
    kernel.threads.push(Thread::new(3, 1, 0x0010_0000, 0x0800_C000, 0x20));
    let picked = kernel.schedule_next();
    assert_eq!(picked, Some(1));
    assert_eq!(kernel.threads[1].state, ThreadState::Running);
    assert_eq!(kernel.current_thread, 1);
}

#[test]
fn wake_expired_sleepers_decrements_and_wakes() {
    let mut kernel = Kernel::new();
    let mut t = Thread::new(1, 1, 0x0010_0000, 0x0800_4000, 0x30);
    t.suspend_timed(WaitReason::Sleep(30_000_000), 30_000_000);
    kernel.threads.push(t);
    kernel.wake_expired_sleepers(16_666_667);
    assert_eq!(kernel.threads[0].state, ThreadState::Waiting);
    assert_eq!(
        kernel.threads[0].wait_reason,
        WaitReason::Sleep(30_000_000 - 16_666_667)
    );
    kernel.wake_expired_sleepers(16_666_667);
    assert_eq!(kernel.threads[0].state, ThreadState::Ready);
}
