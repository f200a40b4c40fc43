//! The HLE microkernel: handle table, threads, synchronization objects, port
//! registry, session map, and the priority-preemptive scheduler.
//!
//! Kernel maps are association lists specified by a first-match lookup; keys
//! come from monotonic counters, so every list a kernel ever holds has
//! distinct keys.

use vstd::prelude::*;

pub mod ipc;
pub mod process;
pub mod svc;
pub mod sync;
pub mod thread;

verus! {

use vstd::string::StringSliceAdditionalSpecFns;

use crate::kernel::sync::SyncObject;
use crate::kernel::sync::SyncSnap;
use crate::kernel::thread::Thread;
use crate::kernel::thread::ThreadSnap;
use crate::kernel::thread::ThreadState;
use crate::kernel::thread::WaitReason;

pub const MAX_THREADS: usize = 32;

/// First index of `key` in an association list, or the length if absent.
pub open spec fn s_find<V>(s: Seq<(u32, V)>, key: u32) -> int
    decreases s.len(),
{
    if s.len() == 0 {
        0
    } else if s.first().0 == key {
        0
    } else {
        1 + s_find(s.drop_first(), key)
    }
}

/// First-match lookup in an association list.
pub open spec fn s_lookup<V>(s: Seq<(u32, V)>, key: u32) -> Option<V> {
    if s_find(s, key) < s.len() {
        Some(s[s_find(s, key)].1)
    } else {
        None
    }
}

/// Insert-or-overwrite, as a hash map's insert behaves: an existing binding
/// is overwritten in place, a new one is appended.
pub open spec fn s_store<V>(s: Seq<(u32, V)>, key: u32, v: V) -> Seq<(u32, V)> {
    if s_find(s, key) < s.len() {
        s.update(s_find(s, key), (key, v))
    } else {
        s.push((key, v))
    }
}

/// Removal of the binding of `key`, if any.
pub open spec fn s_erase<V>(s: Seq<(u32, V)>, key: u32) -> Seq<(u32, V)> {
    if s_find(s, key) < s.len() {
        s.remove(s_find(s, key))
    } else {
        s
    }
}

pub proof fn lemma_find_bounds<V>(s: Seq<(u32, V)>, key: u32)
    ensures
        0 <= s_find(s, key) <= s.len(),
        s_find(s, key) < s.len() ==> s[s_find(s, key)].0 == key,
        forall|j: int| 0 <= j < s_find(s, key) ==> s[j].0 != key,
    decreases s.len(),
{
    if s.len() > 0 && s.first().0 != key {
        lemma_find_bounds(s.drop_first(), key);
        assert forall|j: int| 0 <= j < s_find(s, key) implies s[j].0 != key by {
            if j > 0 {
                assert(s.drop_first()[j - 1] == s[j]);
            }
        }
    }
}

/// A scan that saw no match in the first `i` entries agrees with `s_find`.
pub proof fn lemma_find_from_scan<V>(s: Seq<(u32, V)>, key: u32, i: int)
    requires
        0 <= i <= s.len(),
        forall|j: int| 0 <= j < i ==> s[j].0 != key,
        i < s.len() ==> s[i].0 == key,
    ensures
        i < s.len() ==> s_find(s, key) == i,
        i == s.len() ==> s_find(s, key) == s.len(),
    decreases i,
{
    if i == 0 {
        if s.len() > 0 && s.first().0 != key {
            lemma_find_bounds(s.drop_first(), key);
        }
    } else {
        assert(s.first().0 != key);
        lemma_find_from_scan(s.drop_first(), key, i - 1);
    }
}

/// Looking up a key just stored finds the stored value.
pub proof fn lemma_lookup_store<V>(s: Seq<(u32, V)>, key: u32, v: V)
    ensures
        s_lookup(s_store(s, key, v), key) == Some(v),
{
    lemma_find_bounds(s, key);
    let i = s_find(s, key);
    if i < s.len() {
        let s1 = s.update(i, (key, v));
        lemma_find_from_scan(s1, key, i);
    } else {
        let s1 = s.push((key, v));
        lemma_find_from_scan(s1, key, i);
    }
}

/// No two bindings share a key.
pub open spec fn s_unique_keys<V>(s: Seq<(u32, V)>) -> bool {
    forall|i: int, j: int| 0 <= i < j < s.len() ==> s[i].0 != s[j].0
}

/// Erasing a key from a duplicate-free list removes its binding entirely.
pub proof fn lemma_lookup_erase<V>(s: Seq<(u32, V)>, key: u32)
    requires
        s_unique_keys(s),
    ensures
        s_lookup(s_erase(s, key), key) is None,
{
    lemma_find_bounds(s, key);
    let i = s_find(s, key);
    if i < s.len() {
        let s1 = s.remove(i);
        assert(forall|j: int| 0 <= j < s1.len() ==> s1[j].0 != key) by {
            assert forall|j: int| 0 <= j < s1.len() implies s1[j].0 != key by {
                if j < i {
                    assert(s1[j] == s[j]);
                } else {
                    assert(s1[j] == s[j + 1]);
                }
            }
        }
        lemma_find_from_scan(s1, key, s1.len() as int);
    }
}

/// Storing preserves key uniqueness.
pub proof fn lemma_store_unique<V>(s: Seq<(u32, V)>, key: u32, v: V)
    requires
        s_unique_keys(s),
    ensures
        s_unique_keys(s_store(s, key, v)),
{
    lemma_find_bounds(s, key);
}

/// First-match index for name-keyed lists.
pub open spec fn s_find_name<V>(s: Seq<(Seq<u8>, V)>, key: Seq<u8>) -> int
    decreases s.len(),
{
    if s.len() == 0 {
        0
    } else if s.first().0 == key {
        0
    } else {
        1 + s_find_name(s.drop_first(), key)
    }
}

/// First-match lookup for name-keyed lists.
pub open spec fn s_lookup_name<V>(s: Seq<(Seq<u8>, V)>, key: Seq<u8>) -> Option<V> {
    if s_find_name(s, key) < s.len() {
        Some(s[s_find_name(s, key)].1)
    } else {
        None
    }
}

/// Insert-or-overwrite for name-keyed lists.
pub open spec fn s_store_name<V>(s: Seq<(Seq<u8>, V)>, key: Seq<u8>, v: V) -> Seq<(Seq<u8>, V)> {
    if s_find_name(s, key) < s.len() {
        s.update(s_find_name(s, key), (key, v))
    } else {
        s.push((key, v))
    }
}

pub proof fn lemma_find_name_bounds<V>(s: Seq<(Seq<u8>, V)>, key: Seq<u8>)
    ensures
        0 <= s_find_name(s, key) <= s.len(),
        s_find_name(s, key) < s.len() ==> s[s_find_name(s, key)].0 == key,
        forall|j: int| 0 <= j < s_find_name(s, key) ==> s[j].0 != key,
    decreases s.len(),
{
    if s.len() > 0 && s.first().0 != key {
        lemma_find_name_bounds(s.drop_first(), key);
        assert forall|j: int| 0 <= j < s_find_name(s, key) implies s[j].0 != key by {
            if j > 0 {
                assert(s.drop_first()[j - 1] == s[j]);
            }
        }
    }
}

pub proof fn lemma_find_name_from_scan<V>(s: Seq<(Seq<u8>, V)>, key: Seq<u8>, i: int)
    requires
        0 <= i <= s.len(),
        forall|j: int| 0 <= j < i ==> s[j].0 != key,
        i < s.len() ==> s[i].0 == key,
    ensures
        i < s.len() ==> s_find_name(s, key) == i,
        i == s.len() ==> s_find_name(s, key) == s.len(),
    decreases i,
{
    if i == 0 {
        if s.len() > 0 && s.first().0 != key {
            lemma_find_name_bounds(s.drop_first(), key);
        }
    } else {
        assert(s.first().0 != key);
        lemma_find_name_from_scan(s.drop_first(), key, i - 1);
    }
}

/// The nine kinds of kernel object a handle can denote.
#[derive(Clone)]
pub enum HandleEntry {
    Process(u32),
    Thread(u32),
    Mutex(u32),
    Semaphore(u32),
    Event(u32),
    Port(Vec<u8>),
    Session(Vec<u8>),
    SharedMemory(u32, u32),
    Timer,
}

/// Snapshot of a handle entry, with names as byte sequences.
#[verifier::ext_equal]
pub enum HandleSnap {
    Process(u32),
    Thread(u32),
    Mutex(u32),
    Semaphore(u32),
    Event(u32),
    Port(Seq<u8>),
    Session(Seq<u8>),
    SharedMemory(u32, u32),
    Timer,
}

impl View for HandleEntry {
    type V = HandleSnap;

    open spec fn view(&self) -> HandleSnap {
        match self {
            HandleEntry::Process(p) => HandleSnap::Process(*p),
            HandleEntry::Thread(t) => HandleSnap::Thread(*t),
            HandleEntry::Mutex(m) => HandleSnap::Mutex(*m),
            HandleEntry::Semaphore(x) => HandleSnap::Semaphore(*x),
            HandleEntry::Event(e) => HandleSnap::Event(*e),
            HandleEntry::Port(n) => HandleSnap::Port(n@),
            HandleEntry::Session(n) => HandleSnap::Session(n@),
            HandleEntry::SharedMemory(a, sz) => HandleSnap::SharedMemory(*a, *sz),
            HandleEntry::Timer => HandleSnap::Timer,
        }
    }
}

pub struct HandleTable {
    pub entries: Vec<(u32, HandleEntry)>,
    pub next_handle: u32,
}

/// Snapshot of the handle table: the bindings and the monotonic counter.
#[verifier::ext_equal]
pub struct TableSnap {
    pub entries: Seq<(u32, HandleSnap)>,
    pub next: u32,
}

impl View for HandleTable {
    type V = TableSnap;

    open spec fn view(&self) -> TableSnap {
        TableSnap {
            entries: self.entries@.map_values(|p: (u32, HandleEntry)| (p.0, p.1@)),
            next: self.next_handle,
        }
    }
}

/// A counter increment that stops at the top of `u32` rather than wrapping,
/// keeping allocation monotonic in every state.
pub open spec fn s_sat_inc(x: u32) -> u32 {
    if x < 0xFFFF_FFFFu32 {
        (x + 1) as u32
    } else {
        x
    }
}

/// Allocation: bind the next handle value to the entry and advance the
/// counter.
pub open spec fn s_table_alloc(t: TableSnap, e: HandleSnap) -> (TableSnap, u32) {
    (TableSnap { entries: s_store(t.entries, t.next, e), next: s_sat_inc(t.next) }, t.next)
}

/// Closing: remove the binding if present; report whether one was removed.
pub open spec fn s_table_close(t: TableSnap, handle: u32) -> (TableSnap, bool) {
    (
        TableSnap { entries: s_erase(t.entries, handle), ..t },
        s_lookup(t.entries, handle) is Some,
    )
}

impl HandleTable {
    pub fn new() -> (t: Self)
        ensures
            t@.entries == Seq::<(u32, HandleSnap)>::empty(),
            t@.next == 0x100u32,
    {
        let t = Self { entries: Vec::new(), next_handle: 0x100 };
        proof {
            assert(t@.entries =~= Seq::<(u32, HandleSnap)>::empty());
        }
        t
    }

    /// Index of `handle` in the entry list, if bound.
    fn find_index(&self, handle: u32) -> (r: Option<usize>)
        ensures
            match r {
                Some(i) => i == s_find(self@.entries, handle) && i < self@.entries.len()
                    && self@.entries[i as int].0 == handle,
                None => s_find(self@.entries, handle) == self@.entries.len(),
            },
    {
        let n = self.entries.len();
        let mut i: usize = 0;
        while i < n
            invariant
                i <= n,
                n == self.entries@.len(),
                forall|j: int| 0 <= j < i ==> self@.entries[j].0 != handle,
            decreases n - i,
        {
            if self.entries[i].0 == handle {
                proof {
                    lemma_find_from_scan(self@.entries, handle, i as int);
                }
                return Some(i);
            }
            i = i + 1;
        }
        proof {
            lemma_find_from_scan(self@.entries, handle, n as int);
        }
        None
    }

    pub fn allocate(&mut self, entry: HandleEntry) -> (handle: u32)
        ensures
            final(self)@ == s_table_alloc(old(self)@, entry@).0,
            handle == s_table_alloc(old(self)@, entry@).1,
            handle == old(self)@.next,
    {
        let handle = self.next_handle;
        match self.find_index(handle) {
            Some(i) => {
                self.entries[i] = (handle, entry);
            },
            None => {
                self.entries.push((handle, entry));
            },
        }
        if self.next_handle < 0xFFFF_FFFF {
            self.next_handle = self.next_handle + 1;
        }
        proof {
            assert(self@.entries =~= s_store(old(self)@.entries, handle, entry@));
            assert(self@ =~= s_table_alloc(old(self)@, entry@).0);
        }
        handle
    }

    pub fn get(&self, handle: u32) -> (r: Option<&HandleEntry>)
        ensures
            match r {
                Some(e) => s_lookup(self@.entries, handle) == Some(e@),
                None => s_lookup(self@.entries, handle) is None,
            },
    {
        match self.find_index(handle) {
            Some(i) => Some(&self.entries[i].1),
            None => None,
        }
    }

    pub fn close(&mut self, handle: u32) -> (r: bool)
        ensures
            final(self)@ == s_table_close(old(self)@, handle).0,
            r == s_table_close(old(self)@, handle).1,
    {
        match self.find_index(handle) {
            Some(i) => {
                self.entries.remove(i);
                proof {
                    assert(self@.entries =~= s_erase(old(self)@.entries, handle));
                    assert(self@ =~= s_table_close(old(self)@, handle).0);
                }
                true
            },
            None => {
                proof {
                    assert(self@.entries =~= s_erase(old(self)@.entries, handle));
                    assert(self@ =~= s_table_close(old(self)@, handle).0);
                }
                false
            },
        }
    }
}

/// Handle lifecycle: a freshly allocated handle resolves to its entry; after
/// a close it resolves to nothing, and closing again changes nothing (and is
/// still permitted — closing an absent handle is not an error).
pub proof fn lemma_handle_lifecycle(t: TableSnap, e: HandleSnap)
    requires
        s_unique_keys(t.entries),
    ensures
        ({
            let (t1, h) = s_table_alloc(t, e);
            let (t2, was1) = s_table_close(t1, h);
            let (t3, was2) = s_table_close(t2, h);
            &&& s_lookup(t1.entries, h) == Some(e)
            &&& was1
            &&& s_lookup(t2.entries, h) is None
            &&& !was2
            &&& t3 == t2
        }),
{
    let (t1, h) = s_table_alloc(t, e);
    lemma_lookup_store(t.entries, h, e);
    lemma_store_unique(t.entries, h, e);
    lemma_lookup_erase(t1.entries, h);
    let (t2, was1) = s_table_close(t1, h);
    lemma_find_bounds(t2.entries, h);
    assert(s_erase(t2.entries, h) =~= t2.entries);
    assert(s_table_close(t2, h).0 =~= t2);
}

pub struct Kernel {
    pub handles: HandleTable,
    pub next_process_id: u32,
    pub next_thread_id: u32,
    pub threads: Vec<Thread>,
    pub current_thread: usize,
    pub sync_objects: Vec<(u32, SyncObject)>,
    pub ports: Vec<(Vec<u8>, u32)>,
    pub sessions: Vec<(u32, Vec<u8>)>,
    pub needs_reschedule: bool,
    pub last_connect_fail: Vec<u8>,
}

/// Snapshot of the whole kernel state.
#[verifier::ext_equal]
pub struct KernelSnap {
    pub handles: TableSnap,
    pub next_process_id: u32,
    pub next_thread_id: u32,
    pub threads: Seq<ThreadSnap>,
    pub current_thread: int,
    pub sync_objects: Seq<(u32, SyncSnap)>,
    pub ports: Seq<(Seq<u8>, u32)>,
    pub sessions: Seq<(u32, Seq<u8>)>,
    pub needs_reschedule: bool,
    pub last_connect_fail: Seq<u8>,
}

impl View for Kernel {
    type V = KernelSnap;

    open spec fn view(&self) -> KernelSnap {
        KernelSnap {
            handles: self.handles@,
            next_process_id: self.next_process_id,
            next_thread_id: self.next_thread_id,
            threads: self.threads@.map_values(|t: Thread| t@),
            current_thread: self.current_thread as int,
            sync_objects: self.sync_objects@.map_values(|p: (u32, SyncObject)| (p.0, p.1@)),
            ports: self.ports@.map_values(|p: (Vec<u8>, u32)| (p.0@, p.1)),
            sessions: self.sessions@.map_values(|p: (u32, Vec<u8>)| (p.0, p.1@)),
            needs_reschedule: self.needs_reschedule,
            last_connect_fail: self.last_connect_fail@,
        }
    }
}

/// The empty kernel.
pub open spec fn s_kernel_new() -> KernelSnap {
    KernelSnap {
        handles: TableSnap { entries: Seq::empty(), next: 0x100u32 },
        next_process_id: 1,
        next_thread_id: 1,
        threads: Seq::empty(),
        current_thread: 0,
        sync_objects: Seq::empty(),
        ports: Seq::empty(),
        sessions: Seq::empty(),
        needs_reschedule: false,
        last_connect_fail: Seq::empty(),
    }
}

pub open spec fn s_alloc_handle(k: KernelSnap, e: HandleSnap) -> (KernelSnap, u32) {
    (
        KernelSnap { handles: s_table_alloc(k.handles, e).0, ..k },
        s_table_alloc(k.handles, e).1,
    )
}

pub open spec fn s_register_port(k: KernelSnap, name: Seq<u8>) -> KernelSnap {
    let (k1, handle) = s_alloc_handle(k, HandleSnap::Port(name));
    KernelSnap { ports: s_store_name(k1.ports, name, handle), ..k1 }
}

/// Connecting to a known port mints a session handle bound to the port's
/// name; an unknown name changes nothing and reports failure.
pub open spec fn s_connect_to_port(k: KernelSnap, name: Seq<u8>) -> (KernelSnap, Option<u32>) {
    if s_lookup_name(k.ports, name) is Some {
        let (k1, handle) = s_alloc_handle(k, HandleSnap::Session(name));
        (
            KernelSnap { sessions: s_store(k1.sessions, handle, name), ..k1 },
            Some(handle),
        )
    } else {
        (k, None)
    }
}

/// One frame tick of the sleep queue: sleeping threads whose remaining time
/// is within the elapsed tick wake, the rest keep the remainder.
pub open spec fn s_wake_expired(ts: Seq<ThreadSnap>, elapsed_ns: u64) -> Seq<ThreadSnap> {
    ts.map_values(
        |t: ThreadSnap|
            if t.state == ThreadState::Waiting {
                match t.wait_reason {
                    WaitReason::Sleep(ns) => if ns <= elapsed_ns {
                        crate::kernel::thread::s_wake(t)
                    } else {
                        ThreadSnap { wait_reason: WaitReason::Sleep((ns - elapsed_ns) as u64), ..t }
                    },
                    _ => t,
                }
            } else {
                t
            },
    )
}

/// The scan for the highest-priority Ready thread: lowest priority value
/// wins, ties break toward the earlier index, and a candidate must beat
/// `i32::MAX`.
pub open spec fn s_pick_from(ts: Seq<ThreadSnap>, i: int, best: Option<int>) -> Option<int>
    decreases ts.len() - i,
{
    if i < 0 || i >= ts.len() {
        best
    } else {
        let better = ts[i].state == ThreadState::Ready && (match best {
            Option::None => ts[i].priority < i32::MAX,
            Option::Some(b) => ts[i].priority < ts[b].priority,
        });
        s_pick_from(ts, i + 1, if better {
            Some(i)
        } else {
            best
        })
    }
}

pub open spec fn s_pick_best(ts: Seq<ThreadSnap>) -> Option<int> {
    s_pick_from(ts, 0, Option::None)
}

/// What `schedule_next` does to the kernel and returns.
pub open spec fn s_schedule_next(k: KernelSnap) -> (KernelSnap, Option<int>) {
    if k.threads.len() == 0 {
        (k, Option::None)
    } else {
        let k1 = KernelSnap { needs_reschedule: false, ..k };
        match s_pick_best(k.threads) {
            Option::Some(idx) => (
                KernelSnap {
                    current_thread: idx,
                    threads: k1.threads.update(
                        idx,
                        ThreadSnap { state: ThreadState::Running, ..k1.threads[idx] },
                    ),
                    ..k1
                },
                Some(idx),
            ),
            Option::None => {
                if 0 <= k.current_thread < k.threads.len() && k.threads[k.current_thread].state
                    == ThreadState::Running {
                    (k1, Some(k.current_thread))
                } else {
                    (k1, Option::None)
                }
            },
        }
    }
}

/// The partial scan is sound: the running best is a Ready thread, beats every
/// Ready thread already scanned, and ties break to the earliest index.
proof fn lemma_pick_from_minimal(ts: Seq<ThreadSnap>, i: int, best: Option<int>)
    requires
        0 <= i <= ts.len(),
        match best {
            Option::Some(b) => 0 <= b < i && ts[b].state == ThreadState::Ready && ts[b].priority
                < i32::MAX && (forall|j: int|
                0 <= j < i && ts[j].state == ThreadState::Ready ==> ts[b].priority
                    <= ts[j].priority) && (forall|j: int|
                0 <= j < b ==> !(ts[j].state == ThreadState::Ready && ts[j].priority <= ts[
                    b
                ].priority)),
            Option::None => forall|j: int|
                0 <= j < i ==> !(ts[j].state == ThreadState::Ready && ts[j].priority < i32::MAX),
        },
    ensures
        match s_pick_from(ts, i, best) {
            Option::Some(p) => 0 <= p < ts.len() && ts[p].state == ThreadState::Ready && (forall|
                j: int,
            |
                0 <= j < ts.len() && ts[j].state == ThreadState::Ready ==> ts[p].priority <= ts[
                    j
                ].priority) && (forall|j: int|
                0 <= j < p ==> !(ts[j].state == ThreadState::Ready && ts[j].priority <= ts[
                    p
                ].priority)),
            Option::None => forall|j: int|
                0 <= j < ts.len() ==> !(ts[j].state == ThreadState::Ready && ts[j].priority
                    < i32::MAX),
        },
    decreases ts.len() - i,
{
    if i < ts.len() {
        let better = ts[i].state == ThreadState::Ready && (match best {
            Option::None => ts[i].priority < i32::MAX,
            Option::Some(b) => ts[i].priority < ts[b].priority,
        });
        if better {
            lemma_pick_from_minimal(ts, i + 1, Some(i));
        } else {
            lemma_pick_from_minimal(ts, i + 1, best);
        }
    }
}

/// Scheduler correctness: a picked thread is Ready with the minimum priority
/// value among Ready threads, and the earliest such thread; if none is
/// picked, no Ready thread (below the priority ceiling) exists.
pub proof fn lemma_pick_best_minimal(ts: Seq<ThreadSnap>)
    ensures
        match s_pick_best(ts) {
            Option::Some(p) => 0 <= p < ts.len() && ts[p].state == ThreadState::Ready && (forall|
                j: int,
            |
                0 <= j < ts.len() && ts[j].state == ThreadState::Ready ==> ts[p].priority <= ts[
                    j
                ].priority) && (forall|j: int|
                0 <= j < p ==> !(ts[j].state == ThreadState::Ready && ts[j].priority <= ts[
                    p
                ].priority)),
            Option::None => forall|j: int|
                0 <= j < ts.len() ==> !(ts[j].state == ThreadState::Ready && ts[j].priority
                    < i32::MAX),
        },
{
    lemma_pick_from_minimal(ts, 0, Option::None);
}

impl Kernel {
    pub fn new() -> (k: Self)
        ensures
            k@ == s_kernel_new(),
    {
        let k = Self {
            handles: HandleTable::new(),
            next_process_id: 1,
            next_thread_id: 1,
            threads: Vec::new(),
            current_thread: 0,
            sync_objects: Vec::new(),
            ports: Vec::new(),
            sessions: Vec::new(),
            needs_reschedule: false,
            last_connect_fail: Vec::new(),
        };
        proof {
            assert(k@.threads =~= s_kernel_new().threads);
            assert(k@.sync_objects =~= s_kernel_new().sync_objects);
            assert(k@.ports =~= s_kernel_new().ports);
            assert(k@.sessions =~= s_kernel_new().sessions);
            assert(k@.handles.entries =~= s_kernel_new().handles.entries);
            assert(k@ =~= s_kernel_new());
        }
        k
    }

    pub fn allocate_handle(&mut self, entry: HandleEntry) -> (handle: u32)
        ensures
            final(self)@ == s_alloc_handle(old(self)@, entry@).0,
            handle == s_alloc_handle(old(self)@, entry@).1,
    {
        let h = self.handles.allocate(entry);
        proof {
            assert(self@ =~= s_alloc_handle(old(self)@, entry@).0);
        }
        h
    }

    pub fn get_handle(&self, handle: u32) -> (r: Option<&HandleEntry>)
        ensures
            match r {
                Some(e) => s_lookup(self@.handles.entries, handle) == Some(e@),
                None => s_lookup(self@.handles.entries, handle) is None,
            },
    {
        self.handles.get(handle)
    }

    pub fn close_handle(&mut self, handle: u32) -> (r: bool)
        ensures
            final(self)@ == (KernelSnap {
                handles: s_table_close(old(self)@.handles, handle).0,
                ..old(self)@
            }),
            r == s_table_close(old(self)@.handles, handle).1,
    {
        let r = self.handles.close(handle);
        proof {
            assert(self@ =~= (KernelSnap {
                handles: s_table_close(old(self)@.handles, handle).0,
                ..old(self)@
            }));
        }
        r
    }

    /// Allocate a unique sync object ID (shares the counter with thread IDs).
    pub fn alloc_sync_id(&mut self) -> (id: u32)
        ensures
            id == old(self)@.next_thread_id,
            final(self)@ == (KernelSnap {
                next_thread_id: s_sat_inc(old(self)@.next_thread_id),
                ..old(self)@
            }),
    {
        let id = self.next_thread_id;
        if self.next_thread_id < 0xFFFF_FFFF {
            self.next_thread_id = self.next_thread_id + 1;
        }
        proof {
            assert(self@ =~= (KernelSnap {
                next_thread_id: s_sat_inc(old(self)@.next_thread_id),
                ..old(self)@
            }));
        }
        id
    }

    pub fn register_port(&mut self, name: &str)
        ensures
            final(self)@ == s_register_port(old(self)@, name.spec_bytes()),
    {
        let bytes = bytes_from_str(name);
        let handle = self.allocate_handle(HandleEntry::Port(clone_bytes(&bytes)));
        self.ports_store(bytes, handle);
        proof {
            assert(self@ =~= s_register_port(old(self)@, name.spec_bytes()));
        }
    }

    /// Insert-or-overwrite into the port registry.
    fn ports_store(&mut self, name: Vec<u8>, handle: u32)
        ensures
            final(self)@ == (KernelSnap {
                ports: s_store_name(old(self)@.ports, name@, handle),
                ..old(self)@
            }),
    {
        let n = self.ports.len();
        let mut i: usize = 0;
        while i < n
            invariant
                i <= n,
                n == self.ports@.len(),
                self@ == old(self)@,
                forall|j: int| 0 <= j < i ==> self@.ports[j].0 != name@,
            decreases n - i,
        {
            if bytes_eq(&self.ports[i].0, &name) {
                proof {
                    lemma_find_name_from_scan(self@.ports, name@, i as int);
                }
                self.ports[i] = (name, handle);
                proof {
                    assert(self@.ports =~= s_store_name(old(self)@.ports, name@, handle));
                    assert(self@ =~= (KernelSnap {
                        ports: s_store_name(old(self)@.ports, name@, handle),
                        ..old(self)@
                    }));
                }
                return ;
            }
            i = i + 1;
        }
        proof {
            lemma_find_name_from_scan(self@.ports, name@, n as int);
        }
        self.ports.push((name, handle));
        proof {
            assert(self@.ports =~= s_store_name(old(self)@.ports, name@, handle));
            assert(self@ =~= (KernelSnap {
                ports: s_store_name(old(self)@.ports, name@, handle),
                ..old(self)@
            }));
        }
    }

    /// Whether a port of this name is registered.
    fn ports_contains(&self, name: &[u8]) -> (r: bool)
        ensures
            r == (s_lookup_name(self@.ports, name@) is Some),
    {
        let n = self.ports.len();
        let mut i: usize = 0;
        while i < n
            invariant
                i <= n,
                n == self.ports@.len(),
                forall|j: int| 0 <= j < i ==> self@.ports[j].0 != name@,
            decreases n - i,
        {
            if bytes_eq(&self.ports[i].0, name) {
                proof {
                    lemma_find_name_from_scan(self@.ports, name@, i as int);
                }
                return true;
            }
            i = i + 1;
        }
        proof {
            lemma_find_name_from_scan(self@.ports, name@, n as int);
        }
        false
    }

    /// Insert-or-overwrite into the session map.
    fn sessions_store(&mut self, handle: u32, name: Vec<u8>)
        ensures
            final(self)@ == (KernelSnap {
                sessions: s_store(old(self)@.sessions, handle, name@),
                ..old(self)@
            }),
    {
        let n = self.sessions.len();
        let mut i: usize = 0;
        while i < n
            invariant
                i <= n,
                n == self.sessions@.len(),
                self@ == old(self)@,
                forall|j: int| 0 <= j < i ==> self@.sessions[j].0 != handle,
            decreases n - i,
        {
            if self.sessions[i].0 == handle {
                proof {
                    lemma_find_from_scan(self@.sessions, handle, i as int);
                }
                self.sessions[i] = (handle, name);
                proof {
                    assert(self@.sessions =~= s_store(old(self)@.sessions, handle, name@));
                    assert(self@ =~= (KernelSnap {
                        sessions: s_store(old(self)@.sessions, handle, name@),
                        ..old(self)@
                    }));
                }
                return ;
            }
            i = i + 1;
        }
        proof {
            lemma_find_from_scan(self@.sessions, handle, n as int);
        }
        self.sessions.push((handle, name));
        proof {
            assert(self@.sessions =~= s_store(old(self)@.sessions, handle, name@));
            assert(self@ =~= (KernelSnap {
                sessions: s_store(old(self)@.sessions, handle, name@),
                ..old(self)@
            }));
        }
    }

    pub fn connect_to_port(&mut self, name: &str) -> (r: Option<u32>)
        ensures
            final(self)@ == s_connect_to_port(old(self)@, name.spec_bytes()).0,
            r == s_connect_to_port(old(self)@, name.spec_bytes()).1,
    {
        let bytes = bytes_from_str(name);
        self.connect_to_port_bytes(&bytes)
    }

    /// The same connection transition, for names read out of guest memory.
    pub fn connect_to_port_bytes(&mut self, name: &[u8]) -> (r: Option<u32>)
        ensures
            final(self)@ == s_connect_to_port(old(self)@, name@).0,
            r == s_connect_to_port(old(self)@, name@).1,
    {
        if self.ports_contains(name) {
            let owned = bytes_to_vec(name);
            let session_handle = self.allocate_handle(HandleEntry::Session(clone_bytes(&owned)));
            self.sessions_store(session_handle, owned);
            proof {
                assert(self@ =~= s_connect_to_port(old(self)@, name@).0);
            }
            Some(session_handle)
        } else {
            None
        }
    }

    pub fn get_session_service(&self, handle: u32) -> (r: Option<&Vec<u8>>)
        ensures
            match r {
                Some(n) => s_lookup(self@.sessions, handle) == Some(n@),
                None => s_lookup(self@.sessions, handle) is None,
            },
    {
        let n = self.sessions.len();
        let mut i: usize = 0;
        while i < n
            invariant
                i <= n,
                n == self.sessions@.len(),
                forall|j: int| 0 <= j < i ==> self@.sessions[j].0 != handle,
            decreases n - i,
        {
            if self.sessions[i].0 == handle {
                proof {
                    lemma_find_from_scan(self@.sessions, handle, i as int);
                }
                return Some(&self.sessions[i].1);
            }
            i = i + 1;
        }
        proof {
            lemma_find_from_scan(self@.sessions, handle, n as int);
        }
        None
    }

    pub fn wake_expired_sleepers(&mut self, elapsed_ns: u64)
        ensures
            final(self)@ == (KernelSnap {
                threads: s_wake_expired(old(self)@.threads, elapsed_ns),
                ..old(self)@
            }),
    {
        wake_expired_vec(&mut self.threads, elapsed_ns);
        proof {
            assert(self@ =~= (KernelSnap {
                threads: s_wake_expired(old(self)@.threads, elapsed_ns),
                ..old(self)@
            }));
        }
    }

    /// Pick the Ready thread with the lowest priority value (stable on ties),
    /// mark it Running, and make it current; with no Ready thread, keep the
    /// current one if it is still Running.
    pub fn schedule_next(&mut self) -> (r: Option<usize>)
        ensures
            final(self)@ == s_schedule_next(old(self)@).0,
            match r {
                Some(i) => s_schedule_next(old(self)@).1 == Some(i as int),
                None => s_schedule_next(old(self)@).1 is None,
            },
    {
        let n = self.threads.len();
        if n == 0 {
            return None;
        }
        self.needs_reschedule = false;

        let ghost k1 = self@;
        let mut best: Option<usize> = None;
        let mut best_prio: i32 = i32::MAX;
        let mut i: usize = 0;
        while i < n
            invariant
                i <= n,
                n == self.threads@.len(),
                self@ == k1,
                match best {
                    Some(b) => b < i && best_prio == self@.threads[b as int].priority
                        && s_pick_from(self@.threads, i as int, Some(b as int)) == s_pick_best(
                        self@.threads,
                    ),
                    None => best_prio == i32::MAX && s_pick_from(
                        self@.threads,
                        i as int,
                        Option::None,
                    ) == s_pick_best(self@.threads),
                },
            decreases n - i,
        {
            let t = &self.threads[i];
            if t.state == ThreadState::Ready && t.priority < best_prio {
                best_prio = t.priority;
                best = Some(i);
            }
            i = i + 1;
        }

        if let Some(idx) = best {
            let mut t = self.threads[idx];
            t.state = ThreadState::Running;
            self.threads[idx] = t;
            self.current_thread = idx;
            proof {
                assert(self@.threads =~= s_schedule_next(old(self)@).0.threads);
                assert(self@ =~= s_schedule_next(old(self)@).0);
            }
            return Some(idx);
        }

        if self.current_thread < n && matches!(
            self.threads[self.current_thread].state,
            ThreadState::Running,
        ) {
            proof {
                assert(self@ =~= s_schedule_next(old(self)@).0);
            }
            return Some(self.current_thread);
        }
        proof {
            assert(self@ =~= s_schedule_next(old(self)@).0);
        }
        None
    }

    /// Index of the thread with this id, if it exists.
    pub fn find_thread(&self, tid: u32) -> (r: Option<usize>)
        ensures
            match r {
                Some(i) => i < self@.threads.len() && self@.threads[i as int].id == tid && (forall|
                    j: int,
                |
                    0 <= j < i ==> self@.threads[j].id != tid),
                None => forall|j: int| 0 <= j < self@.threads.len() ==> self@.threads[j].id != tid,
            },
    {
        let n = self.threads.len();
        let mut i: usize = 0;
        while i < n
            invariant
                i <= n,
                n == self.threads@.len(),
                forall|j: int| 0 <= j < i ==> self@.threads[j].id != tid,
            decreases n - i,
        {
            if self.threads[i].id == tid {
                return Some(i);
            }
            i = i + 1;
        }
        None
    }
}

/// One frame tick of the sleep queue, over the thread list itself.
fn wake_expired_vec(threads: &mut Vec<Thread>, elapsed_ns: u64)
    ensures
        final(threads)@.map_values(|t: Thread| t@) == s_wake_expired(
            old(threads)@.map_values(|t: Thread| t@),
            elapsed_ns,
        ),
{
    let ghost orig = old(threads)@.map_values(|t: Thread| t@);
    let ghost goal = s_wake_expired(orig, elapsed_ns);
    let n = threads.len();
    let mut i: usize = 0;
    while i < n
        invariant
            i <= n,
            n == threads@.len(),
            goal == s_wake_expired(orig, elapsed_ns),
            orig == old(threads)@.map_values(|t: Thread| t@),
            goal.len() == n,
            orig.len() == n,
            forall|j: int| i <= j < n ==> threads@[j] == old(threads)@[j],
            forall|j: int| 0 <= j < i ==> #[trigger] threads@[j]@ == goal[j],
        decreases n - i,
    {
        let mut t = threads[i];
        proof {
            assert(orig[i as int] == old(threads)@[i as int]@);
        }
        if t.state == ThreadState::Waiting {
            if let WaitReason::Sleep(ns) = t.wait_reason {
                if ns <= elapsed_ns {
                    t.wake();
                } else {
                    t.wait_reason = WaitReason::Sleep(ns - elapsed_ns);
                }
                threads[i] = t;
            }
        }
        proof {
            assert(threads@[i as int]@ =~= goal[i as int]);
        }
        i = i + 1;
    }
    proof {
        assert(threads@.map_values(|t: Thread| t@) =~= goal);
    }
}

/// The bytes of a string, as an owned vector.
pub fn bytes_from_str(s: &str) -> (r: Vec<u8>)
    ensures
        r@ == s.spec_bytes(),
{
    bytes_to_vec(s.as_bytes())
}

/// An owned copy of a byte slice.
pub fn bytes_to_vec(b: &[u8]) -> (r: Vec<u8>)
    ensures
        r@ == b@,
{
    let n = b.len();
    let mut r: Vec<u8> = Vec::new();
    let mut i: usize = 0;
    while i < n
        invariant
            i <= n,
            n == b@.len(),
            r@ == b@.take(i as int),
        decreases n - i,
    {
        r.push(b[i]);
        proof {
            assert(b@.take(i as int).push(b@[i as int]) =~= b@.take(i + 1));
        }
        i = i + 1;
    }
    proof {
        assert(b@.take(n as int) =~= b@);
    }
    r
}

/// An owned copy of a byte vector.
pub fn clone_bytes(b: &Vec<u8>) -> (r: Vec<u8>)
    ensures
        r@ == b@,
{
    bytes_to_vec(b.as_slice())
}

/// Byte-for-byte equality.
pub fn bytes_eq(a: &[u8], b: &[u8]) -> (r: bool)
    ensures
        r == (a@ == b@),
{
    if a.len() != b.len() {
        proof {
            assert(a@ != b@);
        }
        return false;
    }
    let n = a.len();
    let mut i: usize = 0;
    while i < n
        invariant
            i <= n,
            n == a@.len(),
            n == b@.len(),
            forall|j: int| 0 <= j < i ==> a@[j] == b@[j],
        decreases n - i,
    {
        if a[i] != b[i] {
            proof {
                assert(a@[i as int] != b@[i as int]);
            }
            return false;
        }
        i = i + 1;
    }
    proof {
        assert(a@ =~= b@);
    }
    true
}

} // verus!
