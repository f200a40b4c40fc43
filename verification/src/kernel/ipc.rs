//! IPC command-buffer framing.  Each thread owns a 256-byte command buffer
//! inside its thread-local storage; a command is one header word (command id
//! in bits 31..16, normal-parameter count in bits 11..6, translate-parameter
//! count in bits 5..0) followed by the parameter words.  Replies reuse the
//! buffer: the header keeps the command id, word 1 is the result code, and
//! the returned values follow.

use vstd::prelude::*;

verus! {

use crate::memory::MemSnap;
use crate::memory::Memory;
use crate::memory::s_mem_read32;
use crate::memory::s_mem_write32;
use crate::memory::s_mem_write_words;
use crate::memory::lemma_write_words_push;

pub const TLS_BASE: u32 = 0x1FF8_2000;

pub const IPC_COMMAND_OFFSET: u32 = 0x80;

pub const IPC_BUFFER_ADDR: u32 = TLS_BASE + IPC_COMMAND_OFFSET;

pub const IPC_BUFFER_WORDS: usize = 64;

#[derive(Debug, Clone)]
pub struct IpcCommand {
    pub header: u32,
    pub command_id: u16,
    pub normal_params: u16,
    pub translate_params: u16,
    pub params: Vec<u32>,
}

/// The command id field of a header word.
pub open spec fn s_hdr_command_id(header: u32) -> u16 {
    ((header >> 16u32) & 0xFFFF) as u16
}

/// The normal-parameter count field of a header word.
pub open spec fn s_hdr_normal(header: u32) -> u16 {
    ((header >> 6u32) & 0x3F) as u16
}

/// The translate-parameter count field of a header word.
pub open spec fn s_hdr_translate(header: u32) -> u16 {
    (header & 0x3F) as u16
}

/// The parameter words that follow the header in the command buffer.
pub open spec fn s_cmd_params(m: MemSnap, total: int) -> Seq<u32> {
    Seq::new(
        total as nat,
        |i: int| s_mem_read32(m, (IPC_BUFFER_ADDR + 4 + 4 * i) as u32),
    )
}

/// A response frame: the original command id, parameter count
/// `values.len() + 1` (the extra word is the result code), no translate
/// parameters; word 1 is the result code and the values follow in order.
pub open spec fn s_write_response(m: MemSnap, header: u32, result: u32, values: Seq<u32>) -> MemSnap {
    let normal_count = (values.len() + 1) as u32;
    let resp_header = (header & 0xFFFF_0000u32) | ((normal_count & 0x3F) << 6u32);
    let m1 = s_mem_write32(m, IPC_BUFFER_ADDR, resp_header);
    let m2 = s_mem_write32(m1, (IPC_BUFFER_ADDR + 4) as u32, result);
    s_mem_write_words(m2, (IPC_BUFFER_ADDR + 8) as u32, values)
}

impl IpcCommand {
    /// Read the command currently framed in the buffer.
    pub fn parse(mem: &Memory) -> (cmd: Self)
        requires
            mem@.wf(),
        ensures
            cmd.header == s_mem_read32(mem@, IPC_BUFFER_ADDR),
            cmd.command_id == s_hdr_command_id(cmd.header),
            cmd.normal_params == s_hdr_normal(cmd.header),
            cmd.translate_params == s_hdr_translate(cmd.header),
            cmd.params@ == s_cmd_params(
                mem@,
                s_hdr_normal(cmd.header) + s_hdr_translate(cmd.header),
            ),
    {
        let header = mem.read32(IPC_BUFFER_ADDR);
        let command_id = ((header >> 16) & 0xFFFF) as u16;
        let normal_params = ((header >> 6) & 0x3F) as u16;
        let translate_params = (header & 0x3F) as u16;

        proof {
            crate::bits::lemma_and_mask_le((header >> 6u32), 0x3F);
            crate::bits::lemma_and_mask_le(header, 0x3F);
        }
        let total = (normal_params + translate_params) as usize;
        let mut params: Vec<u32> = Vec::new();
        let mut i: usize = 0;
        while i < total
            invariant
                i <= total,
                total <= 126,
                mem@.wf(),
                params@.len() == i,
                forall|j: int|
                    0 <= j < i ==> params@[j] == s_mem_read32(
                        mem@,
                        (IPC_BUFFER_ADDR + 4 + 4 * j) as u32,
                    ),
            decreases total - i,
        {
            let word = mem.read32(IPC_BUFFER_ADDR + 4 + (i as u32) * 4);
            params.push(word);
            i = i + 1;
        }

        let cmd = Self { header, command_id, normal_params, translate_params, params };
        proof {
            assert(cmd.params@ =~= s_cmd_params(
                mem@,
                s_hdr_normal(header) + s_hdr_translate(header),
            ));
        }
        cmd
    }

    /// The parameter at `index`, or zero past the end.
    pub fn param(&self, index: usize) -> (r: u32)
        ensures
            r == (if index < self.params@.len() {
                self.params@[index as int]
            } else {
                0u32
            }),
    {
        if index < self.params.len() {
            self.params[index]
        } else {
            0
        }
    }

    pub fn write_response(mem: &mut Memory, header: u32, result: u32, values: &[u32])
        requires
            old(mem)@.wf(),
            values@.len() < 0x3FFF_FFFF,
        ensures
            final(mem)@ == s_write_response(old(mem)@, header, result, values@),
            final(mem)@.wf(),
    {
        let normal_count = (values.len() + 1) as u32;
        let resp_header = (header & 0xFFFF_0000) | ((normal_count & 0x3F) << 6);
        mem.write32(IPC_BUFFER_ADDR, resp_header);
        mem.write32(IPC_BUFFER_ADDR + 4, result);
        let ghost m2 = mem@;
        let n = values.len();
        let mut i: usize = 0;
        while i < n
            invariant
                i <= n,
                n == values@.len(),
                n < 0x3FFF_FFFF,
                mem@.wf(),
                mem@ == s_mem_write_words(m2, (IPC_BUFFER_ADDR + 8) as u32, values@.take(i as int)),
            decreases n - i,
        {
            mem.write32((IPC_BUFFER_ADDR + 8).wrapping_add((i as u32) * 4), values[i]);
            proof {
                lemma_write_words_push(
                    m2,
                    (IPC_BUFFER_ADDR + 8) as u32,
                    values@.take(i as int),
                    values@[i as int],
                );
                assert(values@.take(i as int).push(values@[i as int]) =~= values@.take(i + 1));
            }
            i = i + 1;
        }
        proof {
            assert(values@.take(n as int) =~= values@);
        }
    }

    /// Overwrite the start of the buffer with raw words.
    pub fn write_response_raw(mem: &mut Memory, words: &[u32])
        requires
            old(mem)@.wf(),
            words@.len() < 0x3FFF_FFFF,
        ensures
            final(mem)@ == s_mem_write_words(old(mem)@, IPC_BUFFER_ADDR, words@),
            final(mem)@.wf(),
    {
        let n = words.len();
        let mut i: usize = 0;
        while i < n
            invariant
                i <= n,
                n == words@.len(),
                n < 0x3FFF_FFFF,
                mem@.wf(),
                mem@ == s_mem_write_words(old(mem)@, IPC_BUFFER_ADDR, words@.take(i as int)),
            decreases n - i,
        {
            mem.write32(IPC_BUFFER_ADDR.wrapping_add((i as u32) * 4), words[i]);
            proof {
                lemma_write_words_push(
                    old(mem)@,
                    IPC_BUFFER_ADDR,
                    words@.take(i as int),
                    words@[i as int],
                );
                assert(words@.take(i as int).push(words@[i as int]) =~= words@.take(i + 1));
            }
            i = i + 1;
        }
        proof {
            assert(words@.take(n as int) =~= words@);
        }
    }
}

/// Compose a command header from its three fields.
pub fn make_header(cmd_id: u16, normal: u16, translate: u16) -> (h: u32)
    ensures
        h == ((cmd_id as u32) << 16u32) | (((normal as u32) & 0x3F) << 6u32) | ((translate as u32)
            & 0x3F),
{
    ((cmd_id as u32) << 16) | ((normal as u32 & 0x3F) << 6) | (translate as u32 & 0x3F)
}

} // verus!
