//! Guest processes: address-range bookkeeping and the list of owned threads.

use vstd::prelude::*;

verus! {

use vstd::string::StringSliceAdditionalSpecFns;

pub struct Process {
    pub pid: u32,
    pub name: Vec<u8>,
    pub code_addr: u32,
    pub heap_addr: u32,
    pub code_size: u32,
    pub heap_size: u32,
    pub stack_size: u32,
    pub thread_ids: Vec<u32>,
    pub title_id: u64,
}

impl Process {
    pub fn new(pid: u32, name: &str, code_addr: u32, heap_addr: u32) -> (p: Self)
        ensures
            p.pid == pid,
            p.name@ == name.spec_bytes(),
            p.code_addr == code_addr,
            p.heap_addr == heap_addr,
            p.code_size == 0,
            p.heap_size == 0,
            p.stack_size == 0x4000u32,
            p.thread_ids@ == Seq::<u32>::empty(),
            p.title_id == 0,
    {
        let p = Self {
            pid,
            name: crate::kernel::bytes_from_str(name),
            code_addr,
            heap_addr,
            code_size: 0,
            heap_size: 0,
            stack_size: 0x4000,
            thread_ids: Vec::new(),
            title_id: 0,
        };
        proof {
            assert(p.thread_ids@ =~= Seq::<u32>::empty());
        }
        p
    }

    pub fn add_thread(&mut self, thread_id: u32)
        ensures
            final(self).thread_ids@ == old(self).thread_ids@.push(thread_id),
            final(self).pid == old(self).pid,
            final(self).name@ == old(self).name@,
            final(self).code_addr == old(self).code_addr,
            final(self).heap_addr == old(self).heap_addr,
            final(self).code_size == old(self).code_size,
            final(self).heap_size == old(self).heap_size,
            final(self).stack_size == old(self).stack_size,
            final(self).title_id == old(self).title_id,
    {
        self.thread_ids.push(thread_id);
    }

    /// Drop every occurrence of `thread_id`, keeping the others in order.
    pub fn remove_thread(&mut self, thread_id: u32)
        ensures
            final(self).thread_ids@ == old(self).thread_ids@.filter(|id: u32| id != thread_id),
            final(self).pid == old(self).pid,
            final(self).name@ == old(self).name@,
            final(self).code_addr == old(self).code_addr,
            final(self).heap_addr == old(self).heap_addr,
            final(self).code_size == old(self).code_size,
            final(self).heap_size == old(self).heap_size,
            final(self).stack_size == old(self).stack_size,
            final(self).title_id == old(self).title_id,
    {
        let n = self.thread_ids.len();
        let mut kept: Vec<u32> = Vec::new();
        let mut i: usize = 0;
        while i < n
            invariant
                i <= n,
                n == self.thread_ids@.len(),
                self.thread_ids@ == old(self).thread_ids@,
                kept@ == self.thread_ids@.take(i as int).filter(|id: u32| id != thread_id),
            decreases n - i,
        {
            let id = self.thread_ids[i];
            proof {
                reveal_with_fuel(Seq::filter, 2);
                assert(self.thread_ids@.take(i + 1).drop_last() =~= self.thread_ids@.take(i as int));
                assert(self.thread_ids@.take(i + 1).last() == id);
            }
            if id != thread_id {
                kept.push(id);
            }
            i = i + 1;
        }
        proof {
            assert(self.thread_ids@.take(n as int) =~= self.thread_ids@);
        }
        self.thread_ids = kept;
    }

    pub fn code_end(&self) -> (r: u32)
        ensures
            r == self.code_addr.wrapping_add(self.code_size),
    {
        self.code_addr.wrapping_add(self.code_size)
    }

    pub fn heap_end(&self) -> (r: u32)
        ensures
            r == self.heap_addr.wrapping_add(self.heap_size),
    {
        self.heap_addr.wrapping_add(self.heap_size)
    }

    pub fn set_code_size(&mut self, size: u32)
        ensures
            *final(self) == (Process { code_size: size, ..*old(self) }),
    {
        self.code_size = size;
    }

    pub fn set_heap_size(&mut self, size: u32)
        ensures
            *final(self) == (Process { heap_size: size, ..*old(self) }),
    {
        self.heap_size = size;
    }
}

} // verus!
