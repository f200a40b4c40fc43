//! Synchronization objects: recursive mutex, counting semaphore, and event
//! with three reset disciplines.  Each owns a FIFO wait queue of thread ids;
//! `acquire` and `release` are the two primitive operations every system
//! call reduces to.

use vstd::prelude::*;

verus! {

#[derive(Debug, Clone)]
pub enum SyncObject {
    Mutex(MutexState),
    Semaphore(SemaphoreState),
    Event(EventState),
}

#[derive(Debug, Clone)]
pub struct MutexState {
    pub owner_thread: Option<u32>,
    pub lock_count: u32,
    pub waiting: Vec<u32>,
}

#[derive(Debug, Clone)]
pub struct SemaphoreState {
    pub count: i32,
    pub max_count: i32,
    pub waiting: Vec<u32>,
}

#[derive(Debug, Clone, Copy, PartialEq, Eq, Structural)]
pub enum ResetType {
    OneShot,
    Sticky,
    Pulse,
}

#[derive(Debug, Clone)]
pub struct EventState {
    pub signaled: bool,
    pub reset_type: ResetType,
    pub waiting: Vec<u32>,
}

#[derive(Debug, PartialEq, Eq, Structural)]
pub enum AcquireResult {
    Success,
    WouldBlock,
    InvalidObject,
}

/// Mathematical snapshot of a synchronization object.
#[verifier::ext_equal]
pub enum SyncSnap {
    Mutex { owner: Option<u32>, lock_count: u32, waiting: Seq<u32> },
    Semaphore { count: i32, max: i32, waiting: Seq<u32> },
    Event { signaled: bool, reset: ResetType, waiting: Seq<u32> },
}

impl View for MutexState {
    type V = SyncSnap;

    open spec fn view(&self) -> SyncSnap {
        SyncSnap::Mutex {
            owner: self.owner_thread,
            lock_count: self.lock_count,
            waiting: self.waiting@,
        }
    }
}

impl View for SemaphoreState {
    type V = SyncSnap;

    open spec fn view(&self) -> SyncSnap {
        SyncSnap::Semaphore { count: self.count, max: self.max_count, waiting: self.waiting@ }
    }
}

impl View for EventState {
    type V = SyncSnap;

    open spec fn view(&self) -> SyncSnap {
        SyncSnap::Event {
            signaled: self.signaled,
            reset: self.reset_type,
            waiting: self.waiting@,
        }
    }
}

impl View for SyncObject {
    type V = SyncSnap;

    open spec fn view(&self) -> SyncSnap {
        match self {
            SyncObject::Mutex(m) => m@,
            SyncObject::Semaphore(s) => s@,
            SyncObject::Event(e) => e@,
        }
    }
}

/// A mutex is held exactly when its lock count is positive.
pub open spec fn s_sync_wf(o: SyncSnap) -> bool {
    match o {
        SyncSnap::Mutex { owner, lock_count, .. } => (owner is None <==> lock_count == 0),
        _ => true,
    }
}

/// The acquire transition.
///
/// - Mutex: free is taken with count 1; re-entry by the owner increments the
///   count (saturating at the top of u32); otherwise the caller joins the
///   wait queue (once) and would block.
/// - Semaphore: a positive count is decremented; otherwise the caller joins
///   the wait queue and would block.
/// - Event: a signaled event admits the caller (auto-clearing if it is a
///   one-shot event); otherwise the caller joins the wait queue.
pub open spec fn s_acquire(o: SyncSnap, tid: u32) -> (SyncSnap, AcquireResult) {
    match o {
        SyncSnap::Mutex { owner, lock_count, waiting } => {
            if owner is None {
                (
                    SyncSnap::Mutex { owner: Some(tid), lock_count: 1, waiting },
                    AcquireResult::Success,
                )
            } else if owner == Some(tid) {
                (
                    SyncSnap::Mutex {
                        owner,
                        lock_count: if lock_count < 0xFFFF_FFFFu32 {
                            (lock_count + 1) as u32
                        } else {
                            lock_count
                        },
                        waiting,
                    },
                    AcquireResult::Success,
                )
            } else {
                (
                    SyncSnap::Mutex {
                        owner,
                        lock_count,
                        waiting: if waiting.contains(tid) {
                            waiting
                        } else {
                            waiting.push(tid)
                        },
                    },
                    AcquireResult::WouldBlock,
                )
            }
        },
        SyncSnap::Semaphore { count, max, waiting } => {
            if count > 0 {
                (
                    SyncSnap::Semaphore { count: (count - 1) as i32, max, waiting },
                    AcquireResult::Success,
                )
            } else {
                (
                    SyncSnap::Semaphore {
                        count,
                        max,
                        waiting: if waiting.contains(tid) {
                            waiting
                        } else {
                            waiting.push(tid)
                        },
                    },
                    AcquireResult::WouldBlock,
                )
            }
        },
        SyncSnap::Event { signaled, reset, waiting } => {
            if signaled {
                (
                    SyncSnap::Event {
                        signaled: !(reset == ResetType::OneShot),
                        reset,
                        waiting,
                    },
                    AcquireResult::Success,
                )
            } else {
                (
                    SyncSnap::Event {
                        signaled,
                        reset,
                        waiting: if waiting.contains(tid) {
                            waiting
                        } else {
                            waiting.push(tid)
                        },
                    },
                    AcquireResult::WouldBlock,
                )
            }
        },
    }
}

/// The release transition, returning the new state and the FIFO list of
/// threads to wake.
///
/// - Mutex: only the owner releases; when the count reaches zero ownership
///   transfers to the head waiter (count 1) or lapses.
/// - Semaphore: the count rises when below the maximum; a queued waiter
///   immediately re-consumes it and wakes.
/// - Event: signal, then wake the head waiter and clear (one-shot), wake all
///   and stay signaled (sticky), or wake all and clear (pulse).
pub open spec fn s_release(o: SyncSnap, tid: u32) -> (SyncSnap, Seq<u32>) {
    match o {
        SyncSnap::Mutex { owner, lock_count, waiting } => {
            if owner == Some(tid) {
                let c1 = if lock_count > 0 {
                    (lock_count - 1) as u32
                } else {
                    0u32
                };
                if c1 == 0 {
                    if waiting.len() > 0 {
                        (
                            SyncSnap::Mutex {
                                owner: Some(waiting.first()),
                                lock_count: 1,
                                waiting: waiting.drop_first(),
                            },
                            seq![waiting.first()],
                        )
                    } else {
                        (
                            SyncSnap::Mutex { owner: None, lock_count: 0, waiting },
                            Seq::empty(),
                        )
                    }
                } else {
                    (SyncSnap::Mutex { owner, lock_count: c1, waiting }, Seq::empty())
                }
            } else {
                (o, Seq::empty())
            }
        },
        SyncSnap::Semaphore { count, max, waiting } => {
            if count < max {
                let c1 = (count + 1) as i32;
                if waiting.len() > 0 && c1 > 0 {
                    (
                        SyncSnap::Semaphore {
                            count: (c1 - 1) as i32,
                            max,
                            waiting: waiting.drop_first(),
                        },
                        seq![waiting.first()],
                    )
                } else {
                    (SyncSnap::Semaphore { count: c1, max, waiting }, Seq::empty())
                }
            } else {
                (o, Seq::empty())
            }
        },
        SyncSnap::Event { signaled, reset, waiting } => {
            match reset {
                ResetType::OneShot => {
                    if waiting.len() > 0 {
                        (
                            SyncSnap::Event {
                                signaled: false,
                                reset,
                                waiting: waiting.drop_first(),
                            },
                            seq![waiting.first()],
                        )
                    } else {
                        (SyncSnap::Event { signaled: true, reset, waiting }, Seq::empty())
                    }
                },
                ResetType::Sticky => {
                    (SyncSnap::Event { signaled: true, reset, waiting: Seq::empty() }, waiting)
                },
                ResetType::Pulse => {
                    (SyncSnap::Event { signaled: false, reset, waiting: Seq::empty() }, waiting)
                },
            }
        },
    }
}

/// Clearing an event resets its signal; other objects are untouched.
pub open spec fn s_clear_event(o: SyncSnap) -> SyncSnap {
    match o {
        SyncSnap::Event { signaled, reset, waiting } => SyncSnap::Event {
            signaled: false,
            reset,
            waiting,
        },
        _ => o,
    }
}

impl MutexState {
    pub fn new() -> (m: Self)
        ensures
            m@ == (SyncSnap::Mutex { owner: None, lock_count: 0u32, waiting: Seq::<u32>::empty() }),
    {
        let m = Self { owner_thread: None, lock_count: 0, waiting: Vec::new() };
        proof {
            assert(m@ =~= (SyncSnap::Mutex {
                owner: None,
                lock_count: 0u32,
                waiting: Seq::<u32>::empty(),
            }));
        }
        m
    }
}

impl SemaphoreState {
    pub fn new(initial: i32, max: i32) -> (s: Self)
        ensures
            s@ == (SyncSnap::Semaphore { count: initial, max, waiting: Seq::<u32>::empty() }),
    {
        let s = Self { count: initial, max_count: max, waiting: Vec::new() };
        proof {
            assert(s@ =~= (SyncSnap::Semaphore {
                count: initial,
                max,
                waiting: Seq::<u32>::empty(),
            }));
        }
        s
    }
}

impl EventState {
    pub fn new(reset_type: ResetType) -> (e: Self)
        ensures
            e@ == (SyncSnap::Event {
                signaled: false,
                reset: reset_type,
                waiting: Seq::<u32>::empty(),
            }),
    {
        let e = Self { signaled: false, reset_type, waiting: Vec::new() };
        proof {
            assert(e@ =~= (SyncSnap::Event {
                signaled: false,
                reset: reset_type,
                waiting: Seq::<u32>::empty(),
            }));
        }
        e
    }
}

/// Whether a thread id is queued on `v`.
fn vec_contains(v: &Vec<u32>, x: u32) -> (r: bool)
    ensures
        r == v@.contains(x),
{
    let n = v.len();
    let mut i: usize = 0;
    while i < n
        invariant
            i <= n,
            n == v@.len(),
            forall|j: int| 0 <= j < i ==> v@[j] != x,
        decreases n - i,
    {
        if v[i] == x {
            return true;
        }
        i = i + 1;
    }
    false
}

/// Try to take the object for `thread_id`; on contention the caller is
/// queued (without duplication) and told it would block.
pub fn acquire(obj: &mut SyncObject, thread_id: u32) -> (r: AcquireResult)
    ensures
        final(obj)@ == s_acquire(old(obj)@, thread_id).0,
        r == s_acquire(old(obj)@, thread_id).1,
{
    let r = match obj {
        SyncObject::Mutex(m) => {
            match m.owner_thread {
                None => {
                    m.owner_thread = Some(thread_id);
                    m.lock_count = 1;
                    AcquireResult::Success
                },
                Some(owner) => {
                    if owner == thread_id {
                        if m.lock_count < 0xFFFF_FFFF {
                            m.lock_count = m.lock_count + 1;
                        }
                        AcquireResult::Success
                    } else {
                        if !vec_contains(&m.waiting, thread_id) {
                            m.waiting.push(thread_id);
                        }
                        AcquireResult::WouldBlock
                    }
                },
            }
        },
        SyncObject::Semaphore(s) => {
            if s.count > 0 {
                s.count = s.count - 1;
                AcquireResult::Success
            } else {
                if !vec_contains(&s.waiting, thread_id) {
                    s.waiting.push(thread_id);
                }
                AcquireResult::WouldBlock
            }
        },
        SyncObject::Event(e) => {
            if e.signaled {
                if e.reset_type == ResetType::OneShot {
                    e.signaled = false;
                }
                AcquireResult::Success
            } else {
                if !vec_contains(&e.waiting, thread_id) {
                    e.waiting.push(thread_id);
                }
                AcquireResult::WouldBlock
            }
        },
    };
    proof {
        assert(obj@ =~= s_acquire(old(obj)@, thread_id).0);
    }
    r
}

/// Empty `v` into `out`, preserving order.
pub(crate) fn drain_into(v: &mut Vec<u32>, out: &mut Vec<u32>)
    ensures
        final(v)@ == Seq::<u32>::empty(),
        final(out)@ == old(out)@ + old(v)@,
{
    let ghost orig = old(v)@;
    while v.len() > 0
        invariant
            v@.len() <= orig.len(),
            out@ == old(out)@ + orig.take(orig.len() - v@.len()),
            orig.skip(orig.len() - v@.len()) == v@,
        decreases v@.len(),
    {
        let ghost ventry = v@;
        let ghost done = orig.len() - ventry.len();
        let x = v.remove(0);
        out.push(x);
        proof {
            assert(orig.skip(done) == ventry);
            assert(orig.skip(done)[0] == orig[done]);
            assert(x == orig[done]);
            assert(orig.take(done + 1) =~= orig.take(done).push(x));
            assert(orig.skip(done + 1) =~= v@);
        }
    }
    proof {
        assert(orig.take(orig.len() as int) =~= orig);
        assert(final(out)@ == old(out)@ + orig);
        assert(v@ =~= Seq::<u32>::empty());
    }
}

/// Release the object on behalf of `thread_id` and return the threads to
/// wake, in FIFO order.
pub fn release(obj: &mut SyncObject, thread_id: u32) -> (woken: Vec<u32>)
    ensures
        final(obj)@ == s_release(old(obj)@, thread_id).0,
        woken@ == s_release(old(obj)@, thread_id).1,
{
    let mut woken: Vec<u32> = Vec::new();
    match obj {
        SyncObject::Mutex(m) => {
            if m.owner_thread == Some(thread_id) {
                if m.lock_count > 0 {
                    m.lock_count = m.lock_count - 1;
                }
                if m.lock_count == 0 {
                    m.owner_thread = None;
                    if m.waiting.len() > 0 {
                        let next = m.waiting.remove(0);
                        m.owner_thread = Some(next);
                        m.lock_count = 1;
                        woken.push(next);
                    }
                }
            }
        },
        SyncObject::Semaphore(s) => {
            if s.count < s.max_count {
                s.count = s.count + 1;
                if s.waiting.len() > 0 && s.count > 0 {
                    let next = s.waiting.remove(0);
                    s.count = s.count - 1;
                    woken.push(next);
                }
            }
        },
        SyncObject::Event(e) => {
            e.signaled = true;
            match e.reset_type {
                ResetType::OneShot => {
                    if e.waiting.len() > 0 {
                        let next = e.waiting.remove(0);
                        e.signaled = false;
                        woken.push(next);
                    }
                },
                ResetType::Sticky => {
                    drain_into(&mut e.waiting, &mut woken);
                },
                ResetType::Pulse => {
                    drain_into(&mut e.waiting, &mut woken);
                    e.signaled = false;
                },
            }
        },
    }
    proof {
        assert(obj@ =~= s_release(old(obj)@, thread_id).0);
        assert(woken@ =~= s_release(old(obj)@, thread_id).1);
    }
    woken
}

/// Signalling outside any release discipline: the event becomes signaled
/// and every waiter is woken (the orchestrator's per-frame delivery).
pub open spec fn s_signal_all(o: SyncSnap) -> (SyncSnap, Seq<u32>) {
    match o {
        SyncSnap::Event { signaled, reset, waiting } => (
            SyncSnap::Event { signaled: true, reset, waiting: Seq::empty() },
            waiting,
        ),
        _ => (o, Seq::empty()),
    }
}

/// Mark an event signaled and hand back everyone who was waiting on it.
pub fn signal_all(obj: &mut SyncObject) -> (woken: Vec<u32>)
    ensures
        final(obj)@ == s_signal_all(old(obj)@).0,
        woken@ == s_signal_all(old(obj)@).1,
{
    let mut woken: Vec<u32> = Vec::new();
    match obj {
        SyncObject::Event(e) => {
            e.signaled = true;
            drain_into(&mut e.waiting, &mut woken);
        },
        _ => {},
    }
    proof {
        assert(obj@ =~= s_signal_all(old(obj)@).0);
        assert(woken@ =~= s_signal_all(old(obj)@).1);
    }
    woken
}

/// Reset an event's signal without waking anyone.
pub fn clear_event(obj: &mut SyncObject)
    ensures
        final(obj)@ == s_clear_event(old(obj)@),
{
    match obj {
        SyncObject::Event(e) => {
            e.signaled = false;
        },
        _ => {},
    }
    proof {
        assert(obj@ =~= s_clear_event(old(obj)@));
    }
}

/// Equality comparison used by `==` on `Option<u32>` fields.
impl MutexState {
    /// The head of the wait queue, if any.
    pub fn head_waiter(&self) -> (r: Option<u32>)
        ensures
            r == (if self.waiting@.len() > 0 {
                Some(self.waiting@.first())
            } else {
                None::<u32>
            }),
    {
        if self.waiting.len() > 0 {
            Some(self.waiting[0])
        } else {
            None
        }
    }
}

/// Acquiring with each thread of `tids` in turn, keeping only the state.
pub open spec fn s_acquire_all(o: SyncSnap, tids: Seq<u32>) -> SyncSnap
    decreases tids.len(),
{
    if tids.len() == 0 {
        o
    } else {
        s_acquire_all(s_acquire(o, tids.first()).0, tids.drop_first())
    }
}

/// Whether every acquire in the chain reports success.
pub open spec fn s_acquires_succeed(o: SyncSnap, tids: Seq<u32>) -> bool
    decreases tids.len(),
{
    tids.len() == 0 || (s_acquire(o, tids.first()).1 == AcquireResult::Success
        && s_acquires_succeed(s_acquire(o, tids.first()).0, tids.drop_first()))
}

/// Whether every acquire in the chain reports contention.
pub open spec fn s_acquires_block(o: SyncSnap, tids: Seq<u32>) -> bool
    decreases tids.len(),
{
    tids.len() == 0 || (s_acquire(o, tids.first()).1 == AcquireResult::WouldBlock
        && s_acquires_block(s_acquire(o, tids.first()).0, tids.drop_first()))
}

/// Releasing `n` times on behalf of one thread, keeping only the state.
pub open spec fn s_release_n(o: SyncSnap, tid: u32, n: nat) -> SyncSnap
    decreases n,
{
    if n == 0 {
        o
    } else {
        s_release_n(s_release(o, tid).0, tid, (n - 1) as nat)
    }
}

/// A free mutex taken twice by one thread and released twice ends free: no
/// owner, count zero, and an empty wait queue.
pub proof fn lemma_mutex_recursive_balance(t: u32)
    ensures
        ({
            let m0 = SyncSnap::Mutex { owner: None, lock_count: 0u32, waiting: Seq::<u32>::empty() };
            let a1 = s_acquire(m0, t);
            let a2 = s_acquire(a1.0, t);
            let r1 = s_release(a2.0, t);
            let r2 = s_release(r1.0, t);
            &&& a1.1 == AcquireResult::Success
            &&& a2.1 == AcquireResult::Success
            &&& r1.1 == Seq::<u32>::empty()
            &&& r2.1 == Seq::<u32>::empty()
            &&& r2.0 == m0
        }),
{
    let m0 = SyncSnap::Mutex { owner: None, lock_count: 0u32, waiting: Seq::<u32>::empty() };
    let a1 = s_acquire(m0, t);
    let a2 = s_acquire(a1.0, t);
    let r1 = s_release(a2.0, t);
    let r2 = s_release(r1.0, t);
    assert(r2.0 =~= m0);
}

/// Acquires of a semaphore with a sufficient count all succeed and drain the
/// count by one each, without touching the wait queue.
pub proof fn lemma_semaphore_acquires(count: i32, max: i32, tids: Seq<u32>)
    requires
        tids.len() <= count,
    ensures
        s_acquires_succeed(
            SyncSnap::Semaphore { count, max, waiting: Seq::<u32>::empty() },
            tids,
        ),
        s_acquire_all(SyncSnap::Semaphore { count, max, waiting: Seq::<u32>::empty() }, tids)
            == (SyncSnap::Semaphore {
            count: (count - tids.len()) as i32,
            max,
            waiting: Seq::<u32>::empty(),
        }),
    decreases tids.len(),
{
    let o = SyncSnap::Semaphore { count, max, waiting: Seq::<u32>::empty() };
    if tids.len() == 0 {
        assert(s_acquire_all(o, tids) =~= o);
    } else {
        lemma_semaphore_acquires((count - 1) as i32, max, tids.drop_first());
    }
}

/// Releases of a semaphore with no waiters and headroom raise the count by
/// one each.
pub proof fn lemma_semaphore_releases(count: i32, max: i32, tid: u32, n: nat)
    requires
        count + n <= max,
    ensures
        s_release_n(SyncSnap::Semaphore { count, max, waiting: Seq::<u32>::empty() }, tid, n)
            == (SyncSnap::Semaphore {
            count: (count + n) as i32,
            max,
            waiting: Seq::<u32>::empty(),
        }),
    decreases n,
{
    if n > 0 {
        lemma_semaphore_releases((count + 1) as i32, max, tid, (n - 1) as nat);
    }
}

/// Semaphore balance: from count `k` with maximum at least `k + n`, `n`
/// successful acquires followed by `n` releases restore count `k`.
pub proof fn lemma_semaphore_balance(k: i32, max: i32, tids: Seq<u32>, rtid: u32)
    requires
        tids.len() <= k,
        k + tids.len() <= max,
    ensures
        s_acquires_succeed(SyncSnap::Semaphore { count: k, max, waiting: Seq::<u32>::empty() }, tids),
        s_release_n(
            s_acquire_all(SyncSnap::Semaphore { count: k, max, waiting: Seq::<u32>::empty() }, tids),
            rtid,
            tids.len(),
        ) == (SyncSnap::Semaphore { count: k, max, waiting: Seq::<u32>::empty() }),
{
    lemma_semaphore_acquires(k, max, tids);
    lemma_semaphore_releases((k - tids.len()) as i32, max, rtid, tids.len());
}

/// Distinct threads acquiring an unsignaled event all block and queue up in
/// arrival order.
pub proof fn lemma_event_acquires_queue(reset: ResetType, queued: Seq<u32>, tids: Seq<u32>)
    requires
        (queued + tids).no_duplicates(),
    ensures
        s_acquires_block(SyncSnap::Event { signaled: false, reset, waiting: queued }, tids),
        s_acquire_all(SyncSnap::Event { signaled: false, reset, waiting: queued }, tids)
            == (SyncSnap::Event { signaled: false, reset, waiting: queued + tids }),
    decreases tids.len(),
{
    let o = SyncSnap::Event { signaled: false, reset, waiting: queued };
    if tids.len() == 0 {
        assert(queued + tids =~= queued);
        assert(s_acquire_all(o, tids) =~= o);
    } else {
        let t = tids.first();
        assert(!queued.contains(t)) by {
            if queued.contains(t) {
                let i = choose|i: int| 0 <= i < queued.len() && queued[i] == t;
                assert((queued + tids)[i] == t);
                assert((queued + tids)[queued.len() as int] == t);
            }
        }
        assert(queued.push(t) =~= queued + seq![t]);
        assert(queued.push(t) + tids.drop_first() =~= queued + tids);
        lemma_event_acquires_queue(reset, queued.push(t), tids.drop_first());
    }
}

/// Event wake order: after threads T1..Tn (all distinct) block on an
/// unsignaled event, a release wakes T1 first, and for sticky or pulse
/// events it wakes all of them, in FIFO order.
pub proof fn lemma_event_release_fifo(reset: ResetType, tids: Seq<u32>, rtid: u32)
    requires
        tids.no_duplicates(),
        tids.len() >= 1,
    ensures
        ({
            let blocked = s_acquire_all(
                SyncSnap::Event { signaled: false, reset, waiting: Seq::<u32>::empty() },
                tids,
            );
            let woken = s_release(blocked, rtid).1;
            &&& woken.len() >= 1
            &&& woken.first() == tids.first()
            &&& reset != ResetType::OneShot ==> woken == tids
            &&& reset == ResetType::OneShot ==> woken == seq![tids.first()]
        }),
{
    assert(Seq::<u32>::empty() + tids =~= tids);
    lemma_event_acquires_queue(reset, Seq::<u32>::empty(), tids);
    let blocked = s_acquire_all(
        SyncSnap::Event { signaled: false, reset, waiting: Seq::<u32>::empty() },
        tids,
    );
    assert(blocked == (SyncSnap::Event { signaled: false, reset, waiting: tids }));
}

} // verus!
