//! The graphics service: framebuffer-swap capture, the interrupt relay
//! queue, and the GPU right toggle.

use vstd::prelude::*;

verus! {

use crate::kernel::ipc::IpcCommand;
use crate::kernel::ipc::s_write_response;
use crate::memory::MemSnap;
use crate::memory::Memory;
use crate::services::ServiceManager;

pub const TOP_FB_WIDTH: u32 = 400;

pub const TOP_FB_HEIGHT: u32 = 240;

pub const BOT_FB_WIDTH: u32 = 320;

pub const BOT_FB_HEIGHT: u32 = 240;

pub const BYTES_PER_PIXEL: u32 = 4;

pub const TOP_FB_SIZE: u32 = TOP_FB_WIDTH * TOP_FB_HEIGHT * BYTES_PER_PIXEL;

/// A parameter word, or zero past the end of the parameter list.
pub open spec fn s_param(params: Seq<u32>, i: int) -> u32 {
    if 0 <= i < params.len() {
        params[i]
    } else {
        0u32
    }
}

/// The framebuffer address a SetBufferSwap selects: the active buffer's
/// address, falling back to whichever of the two is nonzero.
pub open spec fn s_swap_addr(params: Seq<u32>) -> u32 {
    let active_fb = s_param(params, 1);
    let fb0 = s_param(params, 2);
    let fb1 = s_param(params, 3);
    let a = if active_fb == 0 {
        fb0
    } else {
        fb1
    };
    if a != 0 {
        a
    } else if fb0 != 0 {
        fb0
    } else {
        fb1
    }
}

/// What each graphics command replies and how it changes the service state.
pub open spec fn s_gsp_handle(
    cmd_id: u16,
    header: u32,
    params: Seq<u32>,
    m: MemSnap,
    sm: ServiceManager,
) -> (MemSnap, ServiceManager) {
    if cmd_id == 0x0004 {
        (s_write_response(m, header, 0, seq![0u32]), sm)
    } else if cmd_id == 0x0005 {
        let screen_id = s_param(params, 0);
        let addr = s_swap_addr(params);
        let sm1 = if addr != 0 {
            if screen_id == 0 {
                ServiceManager { top_fb_addr: addr, ..sm }
            } else {
                ServiceManager { bot_fb_addr: addr, ..sm }
            }
        } else {
            sm
        };
        (s_write_response(m, header, 0, Seq::empty()), sm1)
    } else if cmd_id == 0x0013 || cmd_id == 0x0019 {
        let event_handle = s_param(params, 2);
        let sm1 = if event_handle != 0 {
            ServiceManager { gsp_interrupt_handle: Some(event_handle), ..sm }
        } else {
            sm
        };
        let shm = match sm1.gsp_shared_mem_handle {
            Some(h) => h,
            None => 0u32,
        };
        (s_write_response(m, header, 0, seq![0u32, 0u32, shm]), sm1)
    } else if cmd_id == 0x0016 {
        (
            s_write_response(m, header, 0, Seq::empty()),
            ServiceManager { gsp_rights_acquired: true, ..sm },
        )
    } else if cmd_id == 0x0017 {
        (
            s_write_response(m, header, 0, Seq::empty()),
            ServiceManager { gsp_rights_acquired: false, ..sm },
        )
    } else {
        (s_write_response(m, header, 0, Seq::empty()), sm)
    }
}

pub fn handle(cmd: &IpcCommand, mem: &mut Memory, svc: &mut ServiceManager)
    requires
        old(mem)@.wf(),
    ensures
        final(mem)@ == s_gsp_handle(cmd.command_id, cmd.header, cmd.params@, old(mem)@, *old(svc)).0,
        *final(svc) == s_gsp_handle(cmd.command_id, cmd.header, cmd.params@, old(mem)@, *old(svc)).1,
        final(mem)@.wf(),
{
    if cmd.command_id == 0x0004 {
        let mut vals: Vec<u32> = Vec::new();
        vals.push(0);
        IpcCommand::write_response(mem, cmd.header, 0, vals.as_slice());
        proof {
            assert(vals@ =~= seq![0u32]);
        }
        proof {
            assert(mem@ =~= s_gsp_handle(cmd.command_id, cmd.header, cmd.params@, old(mem)@, *old(svc)).0);
            assert(*svc =~= s_gsp_handle(cmd.command_id, cmd.header, cmd.params@, old(mem)@, *old(svc)).1);
        }
    } else if cmd.command_id == 0x0005 {
        let screen_id = cmd.param(0);
        let active_fb = cmd.param(1);
        let fb0 = cmd.param(2);
        let fb1 = cmd.param(3);
        let a = if active_fb == 0 {
            fb0
        } else {
            fb1
        };
        let addr = if a != 0 {
            a
        } else if fb0 != 0 {
            fb0
        } else {
            fb1
        };
        if addr != 0 {
            if screen_id == 0 {
                svc.top_fb_addr = addr;
            } else {
                svc.bot_fb_addr = addr;
            }
        }
        let vals: Vec<u32> = Vec::new();
        IpcCommand::write_response(mem, cmd.header, 0, vals.as_slice());
        proof {
            assert(vals@ =~= Seq::<u32>::empty());
        }
        proof {
            assert(mem@ =~= s_gsp_handle(cmd.command_id, cmd.header, cmd.params@, old(mem)@, *old(svc)).0);
            assert(*svc =~= s_gsp_handle(cmd.command_id, cmd.header, cmd.params@, old(mem)@, *old(svc)).1);
        }
    } else if cmd.command_id == 0x0013 || cmd.command_id == 0x0019 {
        let event_handle = cmd.param(2);
        if event_handle != 0 {
            svc.gsp_interrupt_handle = Some(event_handle);
        }
        let shm = match svc.gsp_shared_mem_handle {
            Some(h) => h,
            None => 0,
        };
        let mut vals: Vec<u32> = Vec::new();
        vals.push(0);
        vals.push(0);
        vals.push(shm);
        IpcCommand::write_response(mem, cmd.header, 0, vals.as_slice());
        proof {
            let spec1 = s_gsp_handle(cmd.command_id, cmd.header, cmd.params@, old(mem)@, *old(svc));
            assert(*svc =~= spec1.1);
            assert(mem@ == s_write_response(old(mem)@, cmd.header, 0, vals@));
            assert(vals@ =~= seq![
                0u32,
                0u32,
                match spec1.1.gsp_shared_mem_handle {
                    Some(h) => h,
                    None => 0u32,
                },
            ]);
            let event_handle2 = s_param(cmd.params@, 2);
            let sm1 = if event_handle2 != 0 {
                ServiceManager { gsp_interrupt_handle: Some(event_handle2), ..*old(svc) }
            } else {
                *old(svc)
            };
            let shm2 = match sm1.gsp_shared_mem_handle {
                Some(h) => h,
                None => 0u32,
            };
            assert(spec1 == (
                s_write_response(old(mem)@, cmd.header, 0, seq![0u32, 0u32, shm2]),
                sm1,
            ));
            assert(vals@ =~= seq![0u32, 0u32, shm2]);
            assert(vals@ == seq![0u32, 0u32, shm2]);
            assert(spec1.0 == s_write_response(old(mem)@, cmd.header, 0, vals@));
            assert(mem@ =~= spec1.0);
        }
    } else if cmd.command_id == 0x0016 {
        svc.gsp_rights_acquired = true;
        let vals: Vec<u32> = Vec::new();
        IpcCommand::write_response(mem, cmd.header, 0, vals.as_slice());
        proof {
            assert(vals@ =~= Seq::<u32>::empty());
        }
        proof {
            assert(mem@ =~= s_gsp_handle(cmd.command_id, cmd.header, cmd.params@, old(mem)@, *old(svc)).0);
            assert(*svc =~= s_gsp_handle(cmd.command_id, cmd.header, cmd.params@, old(mem)@, *old(svc)).1);
        }
    } else if cmd.command_id == 0x0017 {
        svc.gsp_rights_acquired = false;
        let vals: Vec<u32> = Vec::new();
        IpcCommand::write_response(mem, cmd.header, 0, vals.as_slice());
        proof {
            assert(vals@ =~= Seq::<u32>::empty());
        }
        proof {
            assert(mem@ =~= s_gsp_handle(cmd.command_id, cmd.header, cmd.params@, old(mem)@, *old(svc)).0);
            assert(*svc =~= s_gsp_handle(cmd.command_id, cmd.header, cmd.params@, old(mem)@, *old(svc)).1);
        }
    } else {
        let vals: Vec<u32> = Vec::new();
        IpcCommand::write_response(mem, cmd.header, 0, vals.as_slice());
        proof {
            assert(vals@ =~= Seq::<u32>::empty());
        }
        proof {
            assert(mem@ =~= s_gsp_handle(cmd.command_id, cmd.header, cmd.params@, old(mem)@, *old(svc)).0);
            assert(*svc =~= s_gsp_handle(cmd.command_id, cmd.header, cmd.params@, old(mem)@, *old(svc)).1);
        }
    }
}

pub fn top_fb_offset() -> (r: u32)
    ensures
        r == 0,
{
    0
}

pub fn bot_fb_offset() -> (r: u32)
    ensures
        r == TOP_FB_SIZE,
{
    TOP_FB_SIZE
}

pub fn top_fb_size() -> (r: u32)
    ensures
        r == TOP_FB_SIZE,
{
    TOP_FB_SIZE
}

pub fn bot_fb_size() -> (r: u32)
    ensures
        r == BOT_FB_WIDTH * BOT_FB_HEIGHT * BYTES_PER_PIXEL,
{
    BOT_FB_WIDTH * BOT_FB_HEIGHT * BYTES_PER_PIXEL
}

} // verus!
