//! The audio DSP service: stubs that report readiness without synthesis.

use vstd::prelude::*;

verus! {

use crate::kernel::ipc::IpcCommand;
use crate::kernel::ipc::s_write_response;
use crate::kernel::ipc::s_cmd_params;
use crate::kernel::ipc::s_hdr_normal;
use crate::kernel::ipc::s_hdr_translate;
use crate::memory::MemSnap;
use crate::memory::Memory;
use crate::services::ServiceManager;

/// What each DSP command replies.  ConvertProcessAddressFromDspDram echoes
/// its first parameter.
pub open spec fn s_dsp_handle(cmd_id: u16, header: u32, m: MemSnap, sm: ServiceManager) -> (
    MemSnap,
    ServiceManager,
) {
    let params = s_cmd_params(m, s_hdr_normal(header) + s_hdr_translate(header));
    if cmd_id == 0x0001 {
        (s_write_response(m, header, 0, seq![1u32, 0u32]), sm)
    } else if cmd_id == 0x0002 {
        (s_write_response(m, header, 0, seq![1u32]), sm)
    } else if cmd_id == 0x000C {
        (
            s_write_response(
                m,
                header,
                0,
                seq![crate::services::gsp::s_param(params, 0)],
            ),
            sm,
        )
    } else if cmd_id == 0x000F || cmd_id == 0x0010 {
        (s_write_response(m, header, 0, seq![0u32]), sm)
    } else if cmd_id == 0x0011 {
        (s_write_response(m, header, 0, seq![1u32, 0u32]), sm)
    } else {
        (s_write_response(m, header, 0, Seq::empty()), sm)
    }
}

pub fn handle(cmd: &IpcCommand, mem: &mut Memory, svc: &mut ServiceManager)
    requires
        old(mem)@.wf(),
        cmd.header == crate::memory::s_mem_read32(old(mem)@, crate::kernel::ipc::IPC_BUFFER_ADDR),
        cmd.params@ == s_cmd_params(
            old(mem)@,
            s_hdr_normal(cmd.header) + s_hdr_translate(cmd.header),
        ),
    ensures
        final(mem)@ == s_dsp_handle(cmd.command_id, cmd.header, old(mem)@, *old(svc)).0,
        *final(svc) == s_dsp_handle(cmd.command_id, cmd.header, old(mem)@, *old(svc)).1,
        final(mem)@.wf(),
{
    if cmd.command_id == 0x0001 {
        let mut vals: Vec<u32> = Vec::new();
        vals.push(1);
        vals.push(0);
        IpcCommand::write_response(mem, cmd.header, 0, vals.as_slice());
        proof {
            assert(vals@ =~= seq![1u32, 0u32]);
        }
    } else if cmd.command_id == 0x0002 {
        let mut vals: Vec<u32> = Vec::new();
        vals.push(1);
        IpcCommand::write_response(mem, cmd.header, 0, vals.as_slice());
        proof {
            assert(vals@ =~= seq![1u32]);
        }
    } else if cmd.command_id == 0x000C {
        let addr = cmd.param(0);
        let mut vals: Vec<u32> = Vec::new();
        vals.push(addr);
        IpcCommand::write_response(mem, cmd.header, 0, vals.as_slice());
        proof {
            assert(vals@ =~= seq![
                crate::services::gsp::s_param(
                    s_cmd_params(
                        old(mem)@,
                        s_hdr_normal(cmd.header) + s_hdr_translate(cmd.header),
                    ),
                    0,
                ),
            ]);
        }
    } else if cmd.command_id == 0x000F || cmd.command_id == 0x0010 {
        let mut vals: Vec<u32> = Vec::new();
        vals.push(0);
        IpcCommand::write_response(mem, cmd.header, 0, vals.as_slice());
        proof {
            assert(vals@ =~= seq![0u32]);
        }
    } else if cmd.command_id == 0x0011 {
        let mut vals: Vec<u32> = Vec::new();
        vals.push(1);
        vals.push(0);
        IpcCommand::write_response(mem, cmd.header, 0, vals.as_slice());
        proof {
            assert(vals@ =~= seq![1u32, 0u32]);
        }
    } else {
        let vals: Vec<u32> = Vec::new();
        IpcCommand::write_response(mem, cmd.header, 0, vals.as_slice());
        proof {
            assert(vals@ =~= Seq::<u32>::empty());
        }
    }
}

} // verus!
