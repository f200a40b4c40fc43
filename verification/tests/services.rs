use citrine::kernel::ipc::{make_header, IpcCommand, IPC_BUFFER_ADDR};
use citrine::memory::Memory;
use citrine::services::{apt, dsp, fs_user, gsp, hid, ServiceManager};

#[test]
fn service_manager_creation() {
    let sm = ServiceManager::new();
    assert!(!sm.apt_initialized);
    assert!(!sm.gsp_rights_acquired);
    assert_eq!(sm.buttons, 0);
}

#[test]
fn unknown_service_returns_success() {
    let mut sm = ServiceManager::new();
    let mut mem = Memory::new();
    let header = make_header(0x0001, 0, 0);
    mem.write32(IPC_BUFFER_ADDR, header);
    sm.handle_request("unknown:SVC", &mut mem);
}

#[test]
fn apt_initialize() {
    let mut mem = Memory::new();
    let mut svc = ServiceManager::new();
    let header = make_header(0x0002, 1, 0);
    mem.write32(IPC_BUFFER_ADDR, header);
    mem.write32(IPC_BUFFER_ADDR + 4, 0x300);
    let cmd = IpcCommand::parse(&mem);
    apt::handle(&cmd, &mut mem, &mut svc);
    assert!(svc.apt_initialized);
    assert_eq!(mem.read32(IPC_BUFFER_ADDR + 4), 0);
}

#[test]
fn apt_get_cpu_time() {
    let mut mem = Memory::new();
    let mut svc = ServiceManager::new();
    let header = make_header(0x0056, 0, 0);
    mem.write32(IPC_BUFFER_ADDR, header);
    let cmd = IpcCommand::parse(&mem);
    apt::handle(&cmd, &mut mem, &mut svc);
    assert_eq!(mem.read32(IPC_BUFFER_ADDR + 8), 30);
}

#[test]
fn dsp_recv_data_ready() {
    let mut mem = Memory::new();
    let mut svc = ServiceManager::new();
    let header = make_header(0x0002, 1, 0);
    mem.write32(IPC_BUFFER_ADDR, header);
    mem.write32(IPC_BUFFER_ADDR + 4, 0);
    let cmd = IpcCommand::parse(&mem);
    dsp::handle(&cmd, &mut mem, &mut svc);
    assert_eq!(mem.read32(IPC_BUFFER_ADDR + 8), 1);
}

#[test]
fn dsp_load_component() {
    let mut mem = Memory::new();
    let mut svc = ServiceManager::new();
    let header = make_header(0x0011, 3, 0);
    mem.write32(IPC_BUFFER_ADDR, header);
    let cmd = IpcCommand::parse(&mem);
    dsp::handle(&cmd, &mut mem, &mut svc);
    assert_eq!(mem.read32(IPC_BUFFER_ADDR + 8), 1);
}

#[test]
fn fs_initialize() {
    let mut mem = Memory::new();
    let mut svc = ServiceManager::new();
    let header = make_header(0x0801, 1, 0);
    mem.write32(IPC_BUFFER_ADDR, header);
    mem.write32(IPC_BUFFER_ADDR + 4, 0x20000);
    let cmd = IpcCommand::parse(&mem);
    fs_user::handle(&cmd, &mut mem, &mut svc);
    assert_eq!(mem.read32(IPC_BUFFER_ADDR + 4), 0);
}

#[test]
fn fs_open_archive() {
    let mut mem = Memory::new();
    let mut svc = ServiceManager::new();
    let header = make_header(0x080C, 3, 0);
    mem.write32(IPC_BUFFER_ADDR, header);
    let cmd = IpcCommand::parse(&mem);
    fs_user::handle(&cmd, &mut mem, &mut svc);
    assert_eq!(mem.read32(IPC_BUFFER_ADDR + 8), 0x100);
}

#[test]
fn acquire_release_rights() {
    let mut mem = Memory::new();
    let mut svc = ServiceManager::new();
    let header = make_header(0x0016, 1, 0);
    mem.write32(IPC_BUFFER_ADDR, header);
    mem.write32(IPC_BUFFER_ADDR + 4, 0);
    let cmd = IpcCommand::parse(&mem);
    gsp::handle(&cmd, &mut mem, &mut svc);
    assert!(svc.gsp_rights_acquired);

    let header = make_header(0x0017, 0, 0);
    mem.write32(IPC_BUFFER_ADDR, header);
    let cmd = IpcCommand::parse(&mem);
    gsp::handle(&cmd, &mut mem, &mut svc);
    assert!(!svc.gsp_rights_acquired);
}

#[test]
fn set_buffer_swap_captures_fb_addr() {
    let mut mem = Memory::new();
    let mut svc = ServiceManager::new();
    let header = make_header(0x0005, 8, 0);
    mem.write32(IPC_BUFFER_ADDR, header);
    mem.write32(IPC_BUFFER_ADDR + 4, 0);
    mem.write32(IPC_BUFFER_ADDR + 8, 0);
    mem.write32(IPC_BUFFER_ADDR + 12, 0x1800_0000);
    mem.write32(IPC_BUFFER_ADDR + 16, 0x1804_0000);
    let cmd = IpcCommand::parse(&mem);
    gsp::handle(&cmd, &mut mem, &mut svc);
    assert_eq!(svc.top_fb_addr, 0x1800_0000);
}

#[test]
fn framebuffer_offsets() {
    assert_eq!(gsp::top_fb_offset(), 0);
    assert_eq!(gsp::top_fb_size(), 400 * 240 * 4);
    assert_eq!(gsp::bot_fb_offset(), 400 * 240 * 4);
    assert_eq!(gsp::bot_fb_size(), 320 * 240 * 4);
}

#[test]
fn button_constants() {
    assert_eq!(hid::BUTTON_A, 1);
    assert_eq!(hid::BUTTON_B, 2);
    assert_eq!(hid::BUTTON_START, 8);
    assert_eq!(hid::BUTTON_X, 1 << 10);
    assert_eq!(hid::BUTTON_Y, 1 << 11);
}

#[test]
fn update_shared_mem_writes_inverted() {
    let mut mem = Memory::new();
    let base = citrine::memory::VADDR_HEAP_BASE;
    hid::update_shared_memory(&mut mem, base, hid::BUTTON_A | hid::BUTTON_B);
    let val = mem.read32(base + 0x1C);
    assert_eq!(val, !(hid::BUTTON_A | hid::BUTTON_B));
}

#[test]
fn shared_mem_size() {
    assert_eq!(hid::SHARED_MEM_SIZE, 0x2B0);
}

#[test]
fn hid_hands_out_its_handles() {
    let mut mem = Memory::new();
    let mut svc = ServiceManager::new();
    svc.hid_shm_handle = 0x151;
    svc.hid_pad_event = 0x152;
    let header = make_header(0x000A, 0, 0);
    mem.write32(IPC_BUFFER_ADDR, header);
    let cmd = IpcCommand::parse(&mem);
    hid::handle(&cmd, &mut mem, &mut svc);
    assert_eq!(mem.read32(IPC_BUFFER_ADDR + 4), 0);
    assert_eq!(mem.read32(IPC_BUFFER_ADDR + 12), 0x151);
    assert_eq!(mem.read32(IPC_BUFFER_ADDR + 16), 0x152);
}
