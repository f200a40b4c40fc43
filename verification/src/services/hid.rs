//! The input service: shared-memory and event handles, and the per-frame pad
//! state publication (active-low, hence inverted).

use vstd::prelude::*;

verus! {

use crate::kernel::ipc::IpcCommand;
use crate::kernel::ipc::s_write_response;
use crate::memory::MemSnap;
use crate::memory::Memory;
use crate::memory::s_mem_write32;
use crate::services::ServiceManager;

pub const BUTTON_A: u32 = 1u32 << 0;

pub const BUTTON_B: u32 = 1u32 << 1;

pub const BUTTON_SELECT: u32 = 1u32 << 2;

pub const BUTTON_START: u32 = 1u32 << 3;

pub const BUTTON_DRIGHT: u32 = 1u32 << 4;

pub const BUTTON_DLEFT: u32 = 1u32 << 5;

pub const BUTTON_DUP: u32 = 1u32 << 6;

pub const BUTTON_DDOWN: u32 = 1u32 << 7;

pub const BUTTON_R: u32 = 1u32 << 8;

pub const BUTTON_L: u32 = 1u32 << 9;

pub const BUTTON_X: u32 = 1u32 << 10;

pub const BUTTON_Y: u32 = 1u32 << 11;

pub const SHARED_MEM_SIZE: u32 = 0x2B0;

pub const PAD_STATE_OFFSET: u32 = 0x1C;

/// What each input command replies: the shared-memory handle and five event
/// handles (all backed by the same pad event), or the raw button state.
pub open spec fn s_hid_handle(cmd_id: u16, header: u32, m: MemSnap, sm: ServiceManager) -> (
    MemSnap,
    ServiceManager,
) {
    if cmd_id == 0x000A {
        (
            s_write_response(
                m,
                header,
                0,
                seq![
                    0u32,
                    sm.hid_shm_handle,
                    sm.hid_pad_event,
                    sm.hid_pad_event,
                    sm.hid_pad_event,
                    sm.hid_pad_event,
                    sm.hid_pad_event,
                ],
            ),
            sm,
        )
    } else if cmd_id == 0x0001 {
        (s_write_response(m, header, 0, seq![sm.buttons]), sm)
    } else {
        (s_write_response(m, header, 0, Seq::empty()), sm)
    }
}

pub fn handle(cmd: &IpcCommand, mem: &mut Memory, svc: &mut ServiceManager)
    requires
        old(mem)@.wf(),
    ensures
        final(mem)@ == s_hid_handle(cmd.command_id, cmd.header, old(mem)@, *old(svc)).0,
        *final(svc) == s_hid_handle(cmd.command_id, cmd.header, old(mem)@, *old(svc)).1,
        final(mem)@.wf(),
{
    if cmd.command_id == 0x000A {
        let shm = svc.hid_shm_handle;
        let pad_ev = svc.hid_pad_event;
        let mut vals: Vec<u32> = Vec::new();
        vals.push(0);
        vals.push(shm);
        vals.push(pad_ev);
        vals.push(pad_ev);
        vals.push(pad_ev);
        vals.push(pad_ev);
        vals.push(pad_ev);
        IpcCommand::write_response(mem, cmd.header, 0, vals.as_slice());
        proof {
            assert(vals@ =~= seq![
                0u32,
                old(svc).hid_shm_handle,
                old(svc).hid_pad_event,
                old(svc).hid_pad_event,
                old(svc).hid_pad_event,
                old(svc).hid_pad_event,
                old(svc).hid_pad_event,
            ]);
        }
    } else if cmd.command_id == 0x0001 {
        let mut vals: Vec<u32> = Vec::new();
        vals.push(svc.buttons);
        IpcCommand::write_response(mem, cmd.header, 0, vals.as_slice());
        proof {
            assert(vals@ =~= seq![old(svc).buttons]);
        }
    } else {
        let vals: Vec<u32> = Vec::new();
        IpcCommand::write_response(mem, cmd.header, 0, vals.as_slice());
        proof {
            assert(vals@ =~= Seq::<u32>::empty());
        }
    }
}

/// The inverted button bitmask written twice at the pad-state offset of the
/// input shared memory (hardware pad state is active-low).
pub open spec fn s_update_shared_memory(m: MemSnap, base_addr: u32, buttons: u32) -> MemSnap {
    let inverted = !buttons;
    s_mem_write32(
        s_mem_write32(m, base_addr.wrapping_add(PAD_STATE_OFFSET), inverted),
        base_addr.wrapping_add(PAD_STATE_OFFSET).wrapping_add(4),
        inverted,
    )
}

pub fn update_shared_memory(mem: &mut Memory, base_addr: u32, buttons: u32)
    requires
        old(mem)@.wf(),
    ensures
        final(mem)@ == s_update_shared_memory(old(mem)@, base_addr, buttons),
        final(mem)@.wf(),
{
    let inverted = !buttons;
    mem.write32(base_addr.wrapping_add(PAD_STATE_OFFSET), inverted);
    mem.write32(base_addr.wrapping_add(PAD_STATE_OFFSET).wrapping_add(4), inverted);
}

} // verus!
