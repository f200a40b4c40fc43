//! Emulated OS services and the dispatcher that routes IPC requests to them
//! by session name.

use vstd::prelude::*;

pub mod apt;
pub mod dsp;
pub mod fs_user;
pub mod gsp;
pub mod hid;

verus! {

use vstd::string::StringSliceAdditionalSpecFns;

use crate::kernel::bytes_eq;
use crate::kernel::ipc::IpcCommand;
use crate::kernel::ipc::s_hdr_command_id;
use crate::kernel::ipc::s_write_response;
use crate::kernel::ipc::s_cmd_params;
use crate::kernel::ipc::s_hdr_normal;
use crate::kernel::ipc::s_hdr_translate;
use crate::memory::MemSnap;
use crate::memory::Memory;
use crate::memory::s_mem_read32;

/// Host-visible state of the emulated services: pre-created kernel object
/// handles, captured framebuffer addresses, and the current button bitmask.
#[derive(Clone, Copy, PartialEq, Eq, Structural)]
pub struct ServiceManager {
    pub apt_initialized: bool,
    pub gsp_rights_acquired: bool,
    pub apt_lock_handle: u32,
    pub apt_signal_event: u32,
    pub apt_resume_event: u32,
    pub srv_notif_semaphore: u32,
    pub hid_shm_handle: u32,
    pub hid_shm_addr: u32,
    pub hid_pad_event: u32,
    pub hid_shared_mem_handle: Option<u32>,
    pub gsp_shared_mem_handle: Option<u32>,
    pub gsp_interrupt_handle: Option<u32>,
    pub top_fb_addr: u32,
    pub bot_fb_addr: u32,
    pub buttons: u32,
}

/// The reset state of the service layer.
pub open spec fn s_services_new() -> ServiceManager {
    ServiceManager {
        apt_initialized: false,
        gsp_rights_acquired: false,
        apt_lock_handle: 0,
        apt_signal_event: 0,
        apt_resume_event: 0,
        srv_notif_semaphore: 0,
        hid_shm_handle: 0,
        hid_shm_addr: 0,
        hid_pad_event: 0,
        hid_shared_mem_handle: None,
        gsp_shared_mem_handle: None,
        gsp_interrupt_handle: None,
        top_fb_addr: 0,
        bot_fb_addr: 0,
        buttons: 0,
    }
}

/// The command currently framed in the buffer, as its header and parameters.
pub open spec fn s_cmd_of(m: MemSnap) -> (u32, Seq<u32>) {
    let header = s_mem_read32(m, crate::kernel::ipc::IPC_BUFFER_ADDR);
    (header, s_cmd_params(m, s_hdr_normal(header) + s_hdr_translate(header)))
}

/// Routing by service name: the four service families the runtime emulates,
/// with every other session answered by an empty success frame.
pub open spec fn s_handle_request(name: Seq<u8>, m: MemSnap, sm: ServiceManager) -> (
    MemSnap,
    ServiceManager,
) {
    let hp = s_cmd_of(m);
    let header = hp.0;
    let params = hp.1;
    let cmd_id = s_hdr_command_id(header);
    if name == "apt:U".spec_bytes() || name == "apt:S".spec_bytes() {
        crate::services::apt::s_apt_handle(cmd_id, header, m, sm)
    } else if name == "gsp::Gpu".spec_bytes() {
        crate::services::gsp::s_gsp_handle(cmd_id, header, params, m, sm)
    } else if name == "hid:USER".spec_bytes() {
        crate::services::hid::s_hid_handle(cmd_id, header, m, sm)
    } else if name == "fs:USER".spec_bytes() {
        crate::services::fs_user::s_fs_handle(cmd_id, header, m, sm)
    } else if name == "dsp::DSP".spec_bytes() {
        crate::services::dsp::s_dsp_handle(cmd_id, header, m, sm)
    } else {
        (s_write_response(m, header, 0, Seq::empty()), sm)
    }
}

/// Byte equality between a service name and a known port string.
fn name_is(name: &[u8], s: &str) -> (r: bool)
    ensures
        r == (name@ == s.spec_bytes()),
{
    bytes_eq(name, s.as_bytes())
}

impl ServiceManager {
    pub fn new() -> (sm: Self)
        ensures
            sm == s_services_new(),
    {
        ServiceManager {
            apt_initialized: false,
            gsp_rights_acquired: false,
            apt_lock_handle: 0,
            apt_signal_event: 0,
            apt_resume_event: 0,
            srv_notif_semaphore: 0,
            hid_shm_handle: 0,
            hid_shm_addr: 0,
            hid_pad_event: 0,
            hid_shared_mem_handle: None,
            gsp_shared_mem_handle: None,
            gsp_interrupt_handle: None,
            top_fb_addr: 0,
            bot_fb_addr: 0,
            buttons: 0,
        }
    }

    /// Route one request for the named session.
    pub fn handle_request(&mut self, service_name: &str, mem: &mut Memory)
        requires
            old(mem)@.wf(),
        ensures
            final(mem)@ == s_handle_request(service_name.spec_bytes(), old(mem)@, *old(self)).0,
            *final(self) == s_handle_request(service_name.spec_bytes(), old(mem)@, *old(self)).1,
            final(mem)@.wf(),
    {
        let bytes = crate::kernel::bytes_from_str(service_name);
        self.handle_request_bytes(bytes.as_slice(), mem);
    }

    /// The same routing, for session names held as bytes.
    pub fn handle_request_bytes(&mut self, service_name: &[u8], mem: &mut Memory)
        requires
            old(mem)@.wf(),
        ensures
            final(mem)@ == s_handle_request(service_name@, old(mem)@, *old(self)).0,
            *final(self) == s_handle_request(service_name@, old(mem)@, *old(self)).1,
            final(mem)@.wf(),
    {
        let cmd = IpcCommand::parse(mem);
        if name_is(service_name, "apt:U") || name_is(service_name, "apt:S") {
            crate::services::apt::handle(&cmd, mem, self);
        } else if name_is(service_name, "gsp::Gpu") {
            crate::services::gsp::handle(&cmd, mem, self);
        } else if name_is(service_name, "hid:USER") {
            crate::services::hid::handle(&cmd, mem, self);
        } else if name_is(service_name, "fs:USER") {
            crate::services::fs_user::handle(&cmd, mem, self);
        } else if name_is(service_name, "dsp::DSP") {
            crate::services::dsp::handle(&cmd, mem, self);
        } else {
            let vals: Vec<u32> = Vec::new();
            IpcCommand::write_response(mem, cmd.header, 0, vals.as_slice());
            proof {
                assert(vals@ =~= Seq::<u32>::empty());
            }
        }
    }

    pub fn set_buttons(&mut self, buttons: u32)
        ensures
            *final(self) == (ServiceManager { buttons, ..*old(self) }),
    {
        self.buttons = buttons;
    }
}

} // verus!
