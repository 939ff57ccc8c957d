use vstd::prelude::*;

verus! {

/// The stack block each fiber owns.
pub const DEFAULT_STACK_SIZE: usize = 1024 * 1024 * 2;

/// The fixed number of fiber slots, the base slot included.
pub const MAX_THREADS: usize = 4;

/// A fiber slot's scheduling state: free for a new task, currently
/// executing, or runnable and waiting for its turn.
#[derive(Clone, Copy, PartialEq, Eq, Structural, Debug)]
pub enum State {
    Available,
    Running,
    Ready,
}

/// The callee-saved register record of a suspended fiber. Saving and
/// restoring these registers — the context swap itself — is
/// processor-level work the embedding performs; the scheduler here
/// decides which record is swapped in, and where in the stack block
/// a fresh fiber starts.
#[derive(Clone, Copy, PartialEq, Eq, Structural, Debug)]
pub struct ThreadContext {
    pub rsp: u64,
    pub r15: u64,
    pub r14: u64,
    pub r13: u64,
    pub r12: u64,
    pub rbx: u64,
    pub rbp: u64,
}

impl Default for ThreadContext {
    /// All registers zeroed, as a fresh slot starts out.
    fn default() -> (c: ThreadContext)
        ensures
            c == (ThreadContext { rsp: 0, r15: 0, r14: 0, r13: 0, r12: 0, rbx: 0, rbp: 0 }),
    {
        ThreadContext { rsp: 0, r15: 0, r14: 0, r13: 0, r12: 0, rbx: 0, rbp: 0 }
    }
}

/// One fiber slot: its stack block, its saved register record, and
/// its scheduling state.
pub struct Thread {
    pub stack: Vec<u8>,
    pub ctx: ThreadContext,
    pub state: State,
}

impl Thread {
    /// A free slot with a zeroed register record and a full-size,
    /// zero-filled stack block.
    pub fn new() -> (t: Thread)
        ensures
            t.state == State::Available,
            t.stack@.len() == DEFAULT_STACK_SIZE,
            forall|i: int| 0 <= i < t.stack@.len() ==> t.stack@[i] == 0u8,
            t.ctx == (ThreadContext { rsp: 0, r15: 0, r14: 0, r13: 0, r12: 0, rbx: 0, rbp: 0 }),
    {
        Thread {
            stack: vec![0u8; DEFAULT_STACK_SIZE],
            ctx: ThreadContext::default(),
            state: State::Available,
        }
    }
}

/// The first slot in circular order from `start + k` whose state is
/// Ready, scanning at most through one full turn of the slot table.
pub open spec fn find_ready_from(threads: Seq<Thread>, start: int, k: nat) -> Option<int>
    decreases threads.len() - k,
{
    if k >= threads.len() {
        None
    } else {
        let idx: int = if start + k < threads.len() {
            start + k
        } else {
            start + k - threads.len()
        };
        if threads[idx].state == State::Ready {
            Some(idx)
        } else {
            find_ready_from(threads, start, k + 1)
        }
    }
}

/// A successful circular scan lands on a slot that is in range and
/// runnable.
pub proof fn lemma_find_ready_some(threads: Seq<Thread>, start: int, k: nat)
    requires
        0 <= start < threads.len(),
        find_ready_from(threads, start, k) is Some,
    ensures
        ({
            let p = find_ready_from(threads, start, k)->0;
            0 <= p < threads.len() && threads[p].state == State::Ready
        }),
    decreases threads.len() - k,
{
    if k >= threads.len() {
    } else {
        let idx: int = if start + k < threads.len() {
            start + k
        } else {
            start + k - threads.len()
        };
        if threads[idx].state == State::Ready {
        } else {
            lemma_find_ready_some(threads, start, k + 1);
        }
    }
}

/// The round-robin fiber scheduler: a fixed table of slots and the
/// index of the one currently executing. This is the alternative
/// cooperative backend: a fiber suspends not by returning a poll
/// result but by having its register state saved and another's
/// restored; the swap is the embedding's work, and every scheduling
/// decision around it is made here.
pub struct Runtime {
    pub threads: Vec<Thread>,
    pub current: usize,
}

impl Runtime {
    /// The slot table has its fixed size, the executing index is in
    /// range, and every slot keeps its full-size stack block.
    pub open spec fn wf(self) -> bool {
        &&& self.threads@.len() == MAX_THREADS
        &&& self.current < MAX_THREADS
        &&& forall|i: int|
            0 <= i < self.threads@.len() ==> (#[trigger] self.threads@[i]).stack@.len()
                == DEFAULT_STACK_SIZE
    }

    /// A runtime whose base slot — the one carrying the caller — is
    /// running, with every other slot free.
    #[verifier::loop_isolation(false)]
    pub fn new() -> (rt: Runtime)
        ensures
            rt.wf(),
            rt.current == 0usize,
            rt.threads@[0].state == State::Running,
            forall|i: int|
                1 <= i < MAX_THREADS ==> (#[trigger] rt.threads@[i]).state == State::Available,
            forall|i: int|
                0 <= i < MAX_THREADS ==> (#[trigger] rt.threads@[i]).ctx == (ThreadContext {
                    rsp: 0,
                    r15: 0,
                    r14: 0,
                    r13: 0,
                    r12: 0,
                    rbx: 0,
                    rbp: 0,
                }),
            forall|i: int, j: int|
                0 <= i < MAX_THREADS && 0 <= j < DEFAULT_STACK_SIZE ==> rt.threads@[i].stack@[j]
                    == 0u8,
    {
        let base = Thread {
            stack: vec![0u8; DEFAULT_STACK_SIZE],
            ctx: ThreadContext::default(),
            state: State::Running,
        };
        let mut threads: Vec<Thread> = Vec::new();
        threads.push(base);
        let mut i: usize = 1;
        while i < MAX_THREADS
            invariant
                1 <= i <= MAX_THREADS,
                threads@.len() == i,
                threads@[0].state == State::Running,
                forall|j: int|
                    1 <= j < i ==> (#[trigger] threads@[j]).state == State::Available,
                forall|j: int|
                    0 <= j < i ==> (#[trigger] threads@[j]).stack@.len() == DEFAULT_STACK_SIZE,
                forall|j: int|
                    0 <= j < i ==> (#[trigger] threads@[j]).ctx == (ThreadContext {
                        rsp: 0,
                        r15: 0,
                        r14: 0,
                        r13: 0,
                        r12: 0,
                        rbx: 0,
                        rbp: 0,
                    }),
                forall|j: int, k: int|
                    0 <= j < i && 0 <= k < DEFAULT_STACK_SIZE ==> threads@[j].stack@[k] == 0u8,
            decreases MAX_THREADS - i,
        {
            threads.push(Thread::new());
            i = i + 1;
        }
        Runtime { threads, current: 0 }
    }

    /// Yield the processor: find the next runnable slot in circular
    /// order, starting the scan at the current one. If none is
    /// runnable the scheduler reports that no work remains; otherwise
    /// the current slot — unless it is free, as it is after a fiber
    /// returned — becomes runnable again, the chosen slot becomes the
    /// running one, and the embedding swaps their register records.
    #[verifier::loop_isolation(false)]
    pub fn t_yield(&mut self) -> (progressed: bool)
        requires
            old(self).wf(),
        ensures
            final(self).wf(),
            progressed == (find_ready_from(old(self).threads@, old(self).current as int, 0)
                is Some),
            !progressed ==> *final(self) == *old(self),
            progressed ==> ({
                let s0 = old(self).threads@;
                let cur = old(self).current as int;
                let pos: int = find_ready_from(s0, cur, 0)->0;
                let s1 = if s0[cur].state != State::Available {
                    s0.update(cur, (Thread { state: State::Ready, ..s0[cur] }))
                } else {
                    s0
                };
                &&& final(self).current == pos
                &&& final(self).threads@ == s1.update(pos, (Thread { state: State::Running, ..s1[pos] }))
            }),
    {
        let n: usize = self.threads.len();
        let mut k: usize = 0;
        let mut found: Option<usize> = None;
        let ghost s = self.threads@;
        let ghost cur = self.current as int;
        while k < n && found.is_none()
            invariant
                k <= n,
                found is None ==> find_ready_from(s, cur, 0) == find_ready_from(s, cur, k as nat),
                found matches Some(p) ==> find_ready_from(s, cur, 0) == Some(p as int) && (p as int)
                    < n && s[p as int].state == State::Ready,
            decreases n - k + (if found is Some { 0int } else { 1int }),
        {
            let idx: usize = if self.current + k < n {
                self.current + k
            } else {
                self.current + k - n
            };
            if self.threads[idx].state == State::Ready {
                found = Some(idx);
            } else {
                k = k + 1;
            }
        }
        match found {
            None => {
                proof {
                    assert(find_ready_from(s, cur, n as nat) is None);
                }
                false
            },
            Some(pos) => {
                if self.threads[self.current].state != State::Available {
                    let slot = &mut self.threads[self.current];
                    slot.state = State::Ready;
                }
                let slot = &mut self.threads[pos];
                slot.state = State::Running;
                self.current = pos;
                proof {
                    let s1 = if s[cur].state != State::Available {
                        s.update(cur, (Thread { state: State::Ready, ..s[cur] }))
                    } else {
                        s
                    };
                    assert(self.threads@ =~= s1.update(
                        pos as int,
                        (Thread { state: State::Running, ..s1[pos as int] }),
                    ));
                }
                true
            },
        }
    }

    /// A fiber's body has returned: its slot becomes free again and
    /// the scheduler moves on to the next runnable fiber. The base
    /// slot never returns this way and is left untouched.
    pub fn t_return(&mut self)
        requires
            old(self).wf(),
        ensures
            final(self).wf(),
            old(self).current == 0 ==> *final(self) == *old(self),
            old(self).current != 0 ==> final(self).threads@[old(self).current as int].state
                == State::Available,
            old(self).current != 0 ==> ({
                let cur = old(self).current as int;
                let s1 = old(self).threads@.update(
                    cur,
                    (Thread { state: State::Available, ..old(self).threads@[cur] }),
                );
                &&& (find_ready_from(s1, cur, 0) is None ==> final(self).threads@ == s1
                    && final(self).current == old(self).current)
                &&& (find_ready_from(s1, cur, 0) matches Some(pos) ==> final(self).current == pos
                    && final(self).threads@ == s1.update(
                    pos,
                    (Thread { state: State::Running, ..s1[pos] }),
                ))
            }),
    {
        if self.current != 0 {
            let cur: usize = self.current;
            let slot = &mut self.threads[cur];
            slot.state = State::Available;
            let ghost mid = *self;
            proof {
                assert(mid.threads@ == old(self).threads@.update(
                    cur as int,
                    (Thread { state: State::Available, ..old(self).threads@[cur as int] }),
                ));
            }
            let _ = self.t_yield();
            proof {
                if find_ready_from(mid.threads@, mid.current as int, 0) is Some {
                    lemma_find_ready_some(mid.threads@, mid.current as int, 0);
                }
            }
        }
    }

    /// Hand a new task to the first free slot: its register record is
    /// pointed at the aligned top of its stack block, where the
    /// embedding lays out the task's entry and guard addresses, and
    /// the slot becomes runnable. The caller must not spawn more
    /// tasks than there are free slots.
    #[verifier::loop_isolation(false)]
    pub fn spawn(&mut self)
        requires
            old(self).wf(),
            exists|i: int|
                0 <= i < old(self).threads@.len() && (#[trigger] old(self).threads@[i]).state
                    == State::Available,
        ensures
            final(self).wf(),
            final(self).current == old(self).current,
            exists|i: int|
                0 <= i < old(self).threads@.len() && (#[trigger] old(self).threads@[i]).state
                    == State::Available && final(self).threads@ == old(self).threads@.update(
                    i,
                    (Thread {
                        ctx: (ThreadContext {
                            rsp: (DEFAULT_STACK_SIZE - 32) as u64,
                            ..old(self).threads@[i].ctx
                        }),
                        state: State::Ready,
                        ..old(self).threads@[i]
                    }),
                ) && (forall|j: int|
                    0 <= j < i ==> (#[trigger] old(self).threads@[j]).state != State::Available),
    {
        let n: usize = self.threads.len();
        let mut i: usize = 0;
        while i < n
            invariant
                self.wf(),
                *self == *old(self),
                n == self.threads@.len(),
                i <= n,
                forall|j: int|
                    0 <= j < i ==> (#[trigger] self.threads@[j]).state != State::Available,
            decreases n - i,
        {
            if self.threads[i].state == State::Available {
                let top: usize = DEFAULT_STACK_SIZE - 32;
                let slot = &mut self.threads[i];
                slot.ctx.rsp = top as u64;
                slot.state = State::Ready;
                return ;
            }
            i = i + 1;
        }
        // the scan cannot fall through: a free slot exists by the
        // precondition
        proof {
            assert(false);
        }
    }
}

} // verus!
