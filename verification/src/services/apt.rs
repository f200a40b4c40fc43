//! The applet-manager service: lock and notification-event handles, plus
//! plausible defaults for the query commands.

use vstd::prelude::*;

verus! {

use crate::kernel::ipc::IpcCommand;
use crate::kernel::ipc::s_write_response;
use crate::memory::MemSnap;
use crate::memory::Memory;
use crate::services::ServiceManager;

/// What each applet-manager command replies, and how it changes the service
/// state: GetLockHandle hands out the pre-created lock mutex, Initialize
/// hands out the signal and resume events and marks the service initialized,
/// and the query stubs answer fixed defaults.
pub open spec fn s_apt_handle(cmd_id: u16, header: u32, m: MemSnap, sm: ServiceManager) -> (
    MemSnap,
    ServiceManager,
) {
    if cmd_id == 0x0001 {
        (s_write_response(m, header, 0, seq![0u32, 0u32, 0u32, sm.apt_lock_handle]), sm)
    } else if cmd_id == 0x0002 {
        (
            s_write_response(m, header, 0, seq![0u32, sm.apt_signal_event, sm.apt_resume_event]),
            ServiceManager { apt_initialized: true, ..sm },
        )
    } else if cmd_id == 0x0006 {
        (s_write_response(m, header, 0, seq![0u32, 0u32, 0x300u32, 0x300u32]), sm)
    } else if cmd_id == 0x000B {
        (s_write_response(m, header, 0, seq![0u32]), sm)
    } else if cmd_id == 0x000D || cmd_id == 0x000E {
        (s_write_response(m, header, 0, seq![0x300u32, 1u32, 0u32, 0u32]), sm)
    } else if cmd_id == 0x003B {
        (s_write_response(m, header, 0, seq![1u32]), sm)
    } else if cmd_id == 0x004B {
        (s_write_response(m, header, 0, seq![0u32]), sm)
    } else if cmd_id == 0x0056 {
        (s_write_response(m, header, 0, seq![30u32]), sm)
    } else {
        (s_write_response(m, header, 0, Seq::empty()), sm)
    }
}

pub fn handle(cmd: &IpcCommand, mem: &mut Memory, svc: &mut ServiceManager)
    requires
        old(mem)@.wf(),
    ensures
        final(mem)@ == s_apt_handle(cmd.command_id, cmd.header, old(mem)@, *old(svc)).0,
        *final(svc) == s_apt_handle(cmd.command_id, cmd.header, old(mem)@, *old(svc)).1,
        final(mem)@.wf(),
{
    if cmd.command_id == 0x0001 {
        let mut vals: Vec<u32> = Vec::new();
        vals.push(0);
        vals.push(0);
        vals.push(0);
        vals.push(svc.apt_lock_handle);
        IpcCommand::write_response(mem, cmd.header, 0, vals.as_slice());
        proof {
            assert(vals@ =~= seq![0u32, 0u32, 0u32, old(svc).apt_lock_handle]);
        }
    } else if cmd.command_id == 0x0002 {
        svc.apt_initialized = true;
        let mut vals: Vec<u32> = Vec::new();
        vals.push(0);
        vals.push(svc.apt_signal_event);
        vals.push(svc.apt_resume_event);
        IpcCommand::write_response(mem, cmd.header, 0, vals.as_slice());
        proof {
            assert(vals@ =~= seq![0u32, old(svc).apt_signal_event, old(svc).apt_resume_event]);
        }
    } else if cmd.command_id == 0x0006 {
        let mut vals: Vec<u32> = Vec::new();
        vals.push(0);
        vals.push(0);
        vals.push(0x300);
        vals.push(0x300);
        IpcCommand::write_response(mem, cmd.header, 0, vals.as_slice());
        proof {
            assert(vals@ =~= seq![0u32, 0u32, 0x300u32, 0x300u32]);
        }
    } else if cmd.command_id == 0x000B {
        let mut vals: Vec<u32> = Vec::new();
        vals.push(0);
        IpcCommand::write_response(mem, cmd.header, 0, vals.as_slice());
        proof {
            assert(vals@ =~= seq![0u32]);
        }
    } else if cmd.command_id == 0x000D || cmd.command_id == 0x000E {
        let mut vals: Vec<u32> = Vec::new();
        vals.push(0x300);
        vals.push(1);
        vals.push(0);
        vals.push(0);
        IpcCommand::write_response(mem, cmd.header, 0, vals.as_slice());
        proof {
            assert(vals@ =~= seq![0x300u32, 1u32, 0u32, 0u32]);
        }
    } else if cmd.command_id == 0x003B {
        let mut vals: Vec<u32> = Vec::new();
        vals.push(1);
        IpcCommand::write_response(mem, cmd.header, 0, vals.as_slice());
        proof {
            assert(vals@ =~= seq![1u32]);
        }
    } else if cmd.command_id == 0x004B {
        let mut vals: Vec<u32> = Vec::new();
        vals.push(0);
        IpcCommand::write_response(mem, cmd.header, 0, vals.as_slice());
        proof {
            assert(vals@ =~= seq![0u32]);
        }
    } else if cmd.command_id == 0x0056 {
        let mut vals: Vec<u32> = Vec::new();
        vals.push(30);
        IpcCommand::write_response(mem, cmd.header, 0, vals.as_slice());
        proof {
            assert(vals@ =~= seq![30u32]);
        }
    } else {
        let vals: Vec<u32> = Vec::new();
        IpcCommand::write_response(mem, cmd.header, 0, vals.as_slice());
        proof {
            assert(vals@ =~= Seq::<u32>::empty());
        }
    }
}

} // verus!
