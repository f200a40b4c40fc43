//! The filesystem service: minimal stubs that hand back success and fixed
//! placeholder handles.

use vstd::prelude::*;

verus! {

use crate::kernel::ipc::IpcCommand;
use crate::kernel::ipc::s_write_response;
use crate::memory::MemSnap;
use crate::memory::Memory;
use crate::services::ServiceManager;

/// What each filesystem command replies.
pub open spec fn s_fs_handle(cmd_id: u16, header: u32, m: MemSnap, sm: ServiceManager) -> (
    MemSnap,
    ServiceManager,
) {
    if cmd_id == 0x080C {
        (s_write_response(m, header, 0, seq![0x100u32]), sm)
    } else if cmd_id == 0x0802 {
        (s_write_response(m, header, 0, seq![0x101u32]), sm)
    } else if cmd_id == 0x0807 {
        (s_write_response(m, header, 0, seq![0x102u32]), sm)
    } else {
        (s_write_response(m, header, 0, Seq::empty()), sm)
    }
}

pub fn handle(cmd: &IpcCommand, mem: &mut Memory, svc: &mut ServiceManager)
    requires
        old(mem)@.wf(),
    ensures
        final(mem)@ == s_fs_handle(cmd.command_id, cmd.header, old(mem)@, *old(svc)).0,
        *final(svc) == s_fs_handle(cmd.command_id, cmd.header, old(mem)@, *old(svc)).1,
        final(mem)@.wf(),
{
    if cmd.command_id == 0x080C {
        let mut vals: Vec<u32> = Vec::new();
        vals.push(0x100);
        IpcCommand::write_response(mem, cmd.header, 0, vals.as_slice());
        proof {
            assert(vals@ =~= seq![0x100u32]);
        }
    } else if cmd.command_id == 0x0802 {
        let mut vals: Vec<u32> = Vec::new();
        vals.push(0x101);
        IpcCommand::write_response(mem, cmd.header, 0, vals.as_slice());
        proof {
            assert(vals@ =~= seq![0x101u32]);
        }
    } else if cmd.command_id == 0x0807 {
        let mut vals: Vec<u32> = Vec::new();
        vals.push(0x102);
        IpcCommand::write_response(mem, cmd.header, 0, vals.as_slice());
        proof {
            assert(vals@ =~= seq![0x102u32]);
        }
    } else {
        let vals: Vec<u32> = Vec::new();
        IpcCommand::write_response(mem, cmd.header, 0, vals.as_slice());
        proof {
            assert(vals@ =~= Seq::<u32>::empty());
        }
    }
}

} // verus!
