use vstd::prelude::*;
use std::collections::HashMap;
use crate::coroutine::Coroutine;
use crate::future::{PollState, Fault};
use crate::http::{HttpGetFuture, ReadEvent, ReadOutcome, drain_reads, trace_of, lossy_text_of};
use crate::runtime::reactor::{Reactor, Readiness, deliver_events};

verus! {

broadcast use vstd::std_specs::hash::group_hash_axioms;

/// A handle that marks one task as ready to be polled again. Invoking
/// it pushes the task's identifier onto the scheduler's ready queue;
/// in the embedding it also releases the parked carrier thread, and
/// the scheduler's decision function never parks while the queue is
/// non-empty, so a wake can never be lost between the two effects.
/// Duplicate invocations are harmless: they only leave the identifier
/// in the queue more than once.
#[derive(Clone, Copy, PartialEq, Eq, Structural, Debug)]
pub struct Waker {
    /// The task this waker is associated with.
    pub id: usize,
}

impl Waker {
    /// Mark the task as ready: enqueue its identifier.
    pub fn wake(&self, ready_queue: &mut Vec<usize>)
        ensures
            final(ready_queue)@ == old(ready_queue)@.push(self.id),
    {
        ready_queue.push(self.id);
    }
}

/// A task's suspendable computation: one of the concrete future
/// shapes the runtime drives, dispatched through a single poll
/// operation.
pub enum Task {
    /// A leaf fetch over a connection.
    Fetch(HttpGetFuture),
    /// The sequential two-fetch state machine.
    Chain(Coroutine),
}

impl Task {
    /// Whether the computation has already yielded its value; such a
    /// task must not be polled again.
    pub open spec fn is_resolved(self) -> bool {
        match self {
            Task::Fetch(f) => f.resolved,
            Task::Chain(c) => c.is_resolved(),
        }
    }

    pub open spec fn wf(self) -> bool {
        match self {
            Task::Fetch(_) => true,
            Task::Chain(c) => c.wf(),
        }
    }

    /// Attempt to advance the task, handing it the pending read
    /// traces. Polling a task that already resolved is rejected, and
    /// only such a poll is; a poll that suspends leaves the task
    /// unresolved, and a value is yielded exactly by the poll that
    /// resolves it.
    pub fn poll(
        &mut self,
        waker: &Waker,
        reactor: &mut Reactor,
        reads: &mut HashMap<usize, Vec<ReadEvent>>,
    ) -> (r: Result<PollState<String>, Fault>)
        requires
            old(self).wf(),
        ensures
            final(self).wf(),
            r == Err::<PollState<String>, Fault>(Fault::PolledAfterResolve) <==> old(self).is_resolved(),
            r == Ok::<PollState<String>, Fault>(PollState::NotReady) ==> !final(self).is_resolved(),
            r matches Ok(PollState::Ready(_)) ==> final(self).is_resolved(),
            *old(self) matches Task::Fetch(f) ==> !f.resolved ==> ({
                let rid: usize = if f.started() {
                    f.rid()
                } else {
                    old(reactor).next_id
                };
                let step = drain_reads(f.buffer@, trace_of(old(reads)@, rid));
                &&& (r matches Ok(PollState::Ready(v)) ==> step.1 == ReadOutcome::Finished && v@
                    == lossy_text_of(step.0))
                &&& (step.1 == ReadOutcome::Blocked ==> r == Ok::<PollState<String>, Fault>(
                    PollState::NotReady,
                ) && (*final(self) matches Task::Fetch(g) && g.buffer@ == step.0 && g.path@
                    == f.path@ && g.live()))
                &&& (step.1 == ReadOutcome::Finished ==> (r matches Ok(PollState::Ready(_)))
                    && (*final(self) matches Task::Fetch(g) && g.buffer@ == step.0 && g.path@
                    == f.path@ && g.resolved))
                &&& (step.1 == ReadOutcome::Fatal ==> r == Err::<PollState<String>, Fault>(
                    Fault::Io,
                ))
            }),
            *old(self) matches Task::Chain(c0) ==> (*final(self) matches Task::Chain(c1)
                && Coroutine::poll_step(
                c0,
                c1,
                *old(reactor),
                *final(reactor),
                old(reads)@,
                final(reads)@,
                *waker,
                match r {
                    Ok(PollState::NotReady) => Ok::<PollState<()>, Fault>(PollState::NotReady),
                    Ok(PollState::Ready(_)) => Ok::<PollState<()>, Fault>(PollState::Ready(())),
                    Err(e) => Err::<PollState<()>, Fault>(e),
                },
            ) && (r matches Ok(PollState::Ready(v)) ==> v@ == Seq::<char>::empty())),
    {
        match self {
            Task::Fetch(f) => {
                let ghost f0 = *f;
                let r = f.poll(waker, reactor, reads);
                proof {
                    if !f0.resolved {
                        let rid: usize = if f0.started() {
                            f0.rid()
                        } else {
                            old(reactor).next_id
                        };
                        let step = drain_reads(f0.buffer@, trace_of(old(reads)@, rid));
                        assert(step.1 == ReadOutcome::Blocked || step.1 == ReadOutcome::Finished
                            || step.1 == ReadOutcome::Fatal);
                    }
                }
                r
            },
            Task::Chain(c) => {
                match c.poll(waker, reactor, reads) {
                    Err(e) => Err(e),
                    Ok(PollState::NotReady) => Ok(PollState::NotReady),
                    Ok(PollState::Ready(_)) => Ok(PollState::Ready(String::new())),
                }
            },
        }
    }
}

/// Two tasks of the same shape: the same kind of computation, and
/// for a fetch, the same path. A task keeps its shape through every
/// poll, so the task that resolves under an identifier is
/// recognisably the one spawned under it.
pub open spec fn same_task_shape(a: Task, b: Task) -> bool {
    match (a, b) {
        (Task::Fetch(x), Task::Fetch(y)) => x.path@ == y.path@,
        (Task::Chain(_), Task::Chain(_)) => true,
        _ => false,
    }
}

/// What the scheduling loop does next in a given state: poll another
/// ready task, park the carrier thread because tasks remain but none
/// is ready, or finish because the task table is empty. Parking is
/// chosen only on an empty ready queue, which is what makes a wake
/// that races with parking safe: it lands in the queue first, and a
/// non-empty queue is never parked on.
#[derive(Clone, Copy, PartialEq, Eq, Structural, Debug)]
pub enum SchedAction {
    RunReady,
    Park,
    Finish,
}

/// The executor: the task table, the ready queue shared with every
/// waker handed out for this instance, and the monotonic task
/// identifier counter. Tasks are polled when their identifier is
/// drained from the ready queue, are reinserted while unfinished, and
/// leave the table exactly when they resolve.
pub struct Executor {
    /// The tasks still running, by identifier. A task is absent while
    /// it is being polled, which keeps a re-entrant wake from
    /// reaching the same slot twice.
    pub tasks: HashMap<usize, Task>,
    /// Identifiers awaiting a poll. Order is not significant and
    /// duplicates are tolerated; every entry is eventually consumed.
    pub ready_queue: Vec<usize>,
    /// The next task identifier to assign; identifiers are never
    /// reused while their task lives.
    pub next_id: usize,
}

impl Executor {
    /// Every task in the table wears an identifier the executor
    /// assigned, is well formed, and has not resolved: resolved tasks
    /// are dropped, never stored.
    pub open spec fn wf(self) -> bool {
        forall|id: usize| #[trigger]
            self.tasks@.contains_key(id) ==> id < self.next_id && self.tasks@[id].wf() && !self.tasks@[id].is_resolved()
    }

    /// The scheduling decision for a queue and table: run a ready
    /// task if any is queued; otherwise park if tasks remain;
    /// otherwise finish.
    pub open spec fn sched_decision(queue: Seq<usize>, tasks: Map<usize, Task>) -> SchedAction {
        if queue.len() > 0 {
            SchedAction::RunReady
        } else if tasks.len() > 0 {
            SchedAction::Park
        } else {
            SchedAction::Finish
        }
    }

    pub fn new() -> (e: Executor)
        ensures
            e.wf(),
            e.tasks@ == Map::<usize, Task>::empty(),
            e.ready_queue@ == Seq::<usize>::empty(),
            e.next_id == 0usize,
    {
        Executor { tasks: HashMap::new(), ready_queue: Vec::new(), next_id: 0 }
    }

    /// Place a new task in the table under the next identifier and
    /// enqueue it at once: a newly spawned task is always eligible
    /// for an initial poll. The identifier is fresh — no live task
    /// wears it.
    pub fn spawn(&mut self, task: Task) -> (id: usize)
        requires
            old(self).wf(),
            old(self).next_id < usize::MAX,
            task.wf(),
            !task.is_resolved(),
        ensures
            final(self).wf(),
            id == old(self).next_id,
            !old(self).tasks@.contains_key(id),
            final(self).tasks@ == old(self).tasks@.insert(id, task),
            final(self).ready_queue@ == old(self).ready_queue@.push(id),
            final(self).next_id == old(self).next_id + 1,
    {
        let id: usize = self.next_id;
        let _ = self.tasks.insert(id, task);
        self.ready_queue.push(id);
        self.next_id = id + 1;
        id
    }

    /// Take one identifier off the ready queue, if any is waiting.
    pub fn pop_ready(&mut self) -> (r: Option<usize>)
        ensures
            final(self).tasks@ == old(self).tasks@,
            final(self).next_id == old(self).next_id,
            match r {
                None => old(self).ready_queue@.len() == 0 && final(self).ready_queue@ == old(self).ready_queue@,
                Some(id) => old(self).ready_queue@.len() > 0 && id == old(self).ready_queue@.last() && final(self).ready_queue@ == old(self).ready_queue@.drop_last(),
            },
    {
        self.ready_queue.pop()
    }

    /// Remove a task from the table for polling; its absence while it
    /// runs is what makes a nested wake of the same identifier
    /// harmless. An identifier with no table entry — already
    /// completed, or a duplicate wake — yields nothing.
    pub fn get_future(&mut self, id: usize) -> (t: Option<Task>)
        ensures
            final(self).ready_queue@ == old(self).ready_queue@,
            final(self).next_id == old(self).next_id,
            final(self).tasks@ == old(self).tasks@.remove(id),
            old(self).wf() ==> final(self).wf(),
            match t {
                Some(task) => old(self).tasks@.contains_key(id) && task == old(self).tasks@[id],
                None => !old(self).tasks@.contains_key(id),
            },
    {
        self.tasks.remove(&id)
    }

    /// The waker bound to a task identifier; sharing the ready queue
    /// and the carrier thread is the embedding's part.
    pub fn get_waker(&self, id: usize) -> (w: Waker)
        ensures
            w.id == id,
    {
        Waker { id }
    }

    /// Put an unfinished task back in the table under the identifier
    /// the executor assigned to it. It stays out of the ready queue
    /// until a waker enqueues it again.
    pub fn insert_task(&mut self, id: usize, task: Task)
        requires
            old(self).wf(),
            id < old(self).next_id,
            task.wf(),
            !task.is_resolved(),
        ensures
            final(self).wf(),
            final(self).tasks@ == old(self).tasks@.insert(id, task),
            final(self).ready_queue@ == old(self).ready_queue@,
            final(self).next_id == old(self).next_id,
    {
        let _ = self.tasks.insert(id, task);
    }

    /// How many tasks are still running.
    pub fn task_count(&self) -> (n: usize)
        ensures
            n == self.tasks@.len(),
    {
        self.tasks.len()
    }

    /// The scheduling decision in the current state. Parking is
    /// decided only here, and only on an empty ready queue with
    /// tasks remaining.
    pub fn next_action(&self) -> (a: SchedAction)
        ensures
            a == Executor::sched_decision(self.ready_queue@, self.tasks@),
            a is RunReady <==> self.ready_queue@.len() > 0,
            a is Park ==> self.ready_queue@.len() == 0 && self.tasks@.len() > 0,
            a is Finish <==> self.ready_queue@.len() == 0 && self.tasks@.len() == 0,
    {
        if self.ready_queue.len() > 0 {
            SchedAction::RunReady
        } else if self.task_count() > 0 {
            SchedAction::Park
        } else {
            SchedAction::Finish
        }
    }

    /// Spawn the given task and run the scheduling loop until the
    /// task table is empty, then return the given task's value,
    /// together with (for specification purposes) the resolved task
    /// that produced it: the returned text is exactly the lossy
    /// decoding of the bytes that task accumulated, or the empty
    /// text for a finished two-fetch chain, and the resolved task
    /// has the shape of the one spawned.
    /// Each round follows the scheduling decision: while identifiers
    /// are queued, each is drained, its task — if it still exists —
    /// is taken out of the table and polled, and it is reinserted
    /// exactly when it suspends; when none is queued but tasks
    /// remain, the carrier parks, which here consumes the next batch
    /// of readiness events (in the embedding, the reactor thread
    /// delivers them and unparks the carrier). The executor never
    /// polls a resolved task, so a run never ends with the
    /// poll-after-resolve fault; it ends with every spawned task
    /// resolved and both table and queue empty, or with a stall —
    /// only ever from the parking state, tasks pending and the queue
    /// drained, and only after every readiness batch was consumed —
    /// or with a task's fatal fault.
    #[verifier::loop_isolation(false)]
    pub fn block_on(
        &mut self,
        task: Task,
        reactor: &mut Reactor,
        batches: &mut Vec<Vec<Readiness>>,
    ) -> (res: (Result<String, RunError>, Ghost<Task>))
        requires
            old(self).wf(),
            old(self).next_id < usize::MAX,
            task.wf(),
            !task.is_resolved(),
        ensures
            final(self).wf(),
            final(self).next_id == old(self).next_id + 1,
            res.0 is Ok ==> final(self).tasks@.len() == 0 && final(self).ready_queue@.len() == 0,
            res.0 == Err::<String, RunError>(RunError::Stalled) ==> final(self).tasks@.len() > 0
                && final(self).ready_queue@.len() == 0 && final(batches)@.len() == 0,
            res.0 != Err::<String, RunError>(RunError::Faulted(Fault::PolledAfterResolve)),
            res.0 matches Ok(v) ==> ({
                let w = res.1@;
                &&& w.is_resolved()
                &&& w.wf()
                &&& same_task_shape(task, w)
                &&& (w matches Task::Fetch(g) ==> v@ == lossy_text_of(g.buffer@))
                &&& (w matches Task::Chain(c) ==> v@ == Seq::<char>::empty() && c.outputs@.len()
                    == 2)
            }),
    {
        let main_id: usize = self.spawn(task);
        let mut reads: HashMap<usize, Vec<ReadEvent>> = HashMap::new();
        let mut result: Option<String> = None;
        let ghost mut witness: Task = task;
        loop
            invariant
                self.wf(),
                self.next_id == old(self).next_id + 1,
                result is Some || self.tasks@.contains_key(main_id),
                self.tasks@.contains_key(main_id) ==> same_task_shape(
                    task,
                    self.tasks@[main_id],
                ),
                result matches Some(v) ==> ({
                    &&& witness.is_resolved()
                    &&& witness.wf()
                    &&& same_task_shape(task, witness)
                    &&& (witness matches Task::Fetch(g) ==> v@ == lossy_text_of(g.buffer@))
                    &&& (witness matches Task::Chain(c) ==> v@ == Seq::<char>::empty()
                        && c.outputs@.len() == 2)
                }),
            decreases batches@.len(), self.ready_queue@.len(),
        {
            match self.next_action() {
                SchedAction::Finish => {
                    proof {
                        if self.tasks@.contains_key(main_id) {
                            assert(self.tasks@.dom().contains(main_id));
                            self.tasks@.dom().lemma_len0_is_empty();
                        }
                    }
                    return (Ok(result.unwrap()), Ghost(witness));
                },
                SchedAction::RunReady => {
                    let id: usize = self.pop_ready().unwrap();
                    match self.get_future(id) {
                        None => {
                        },
                        Some(mut fut) => {
                            let ghost fut0 = fut;
                            let ghost reactor0 = *reactor;
                            let ghost reads0 = reads@;
                            let waker = self.get_waker(id);
                            match fut.poll(&waker, reactor, &mut reads) {
                                Err(f) => {
                                    return (Err(RunError::Faulted(f)), Ghost(witness));
                                },
                                Ok(PollState::NotReady) => {
                                    proof {
                                        // a suspending poll keeps the
                                        // task's shape: for a fetch,
                                        // only a blocked drain suspends
                                        if fut0 is Fetch {
                                            let f = fut0->Fetch_0;
                                            if !f.resolved {
                                                let rid: usize = if f.started() {
                                                    f.rid()
                                                } else {
                                                    reactor0.next_id
                                                };
                                                let step = drain_reads(
                                                    f.buffer@,
                                                    trace_of(reads0, rid),
                                                );
                                                assert(step.1 is Blocked || step.1 is Finished
                                                    || step.1 is Fatal);
                                            }
                                        }
                                        assert(same_task_shape(fut0, fut));
                                    }
                                    self.insert_task(id, fut);
                                },
                                Ok(PollState::Ready(v)) => {
                                    if id == main_id {
                                        proof {
                                            witness = fut;
                                        }
                                        result = Some(v);
                                    }
                                },
                            }
                        },
                    }
                },
                SchedAction::Park => {
                    if batches.len() == 0 {
                        return (Err(RunError::Stalled), Ghost(witness));
                    }
                    let batch = batches.remove(0);
                    deliver_events(reactor, batch, &mut self.ready_queue, &mut reads);
                },
            }
        }
    }
}

/// How a scheduling run can end without a value: readiness events ran
/// out while tasks still waited, or a task hit an unrecoverable
/// fault, which in this design is fatal to the whole run.
#[derive(Debug)]
pub enum RunError {
    Stalled,
    Faulted(Fault),
}

/// No lost wake-ups: a wake that lands after the ready queue was
/// drained but before the executor parks leaves the queue non-empty,
/// and the scheduling decision on a non-empty queue is never to park;
/// the woken task is polled in the next round instead. The embedding
/// must pair this with a park primitive that remembers an unpark that
/// arrives first.
pub proof fn lemma_wake_prevents_park(queue: Seq<usize>, tasks: Map<usize, Task>, id: usize)
    ensures
        Executor::sched_decision(queue.push(id), tasks) != SchedAction::Park,
        Executor::sched_decision(queue.push(id), tasks) == SchedAction::RunReady,
{
}

/// Idempotent duplicate wake: invoking a task's waker twice in
/// succession before it is polled merely leaves its identifier in the
/// ready queue twice. The extra entry is harmless: a task polled with
/// no pending reads suspends again with its buffer untouched and its
/// registration unchanged (the poll contracts say so), and an
/// identifier whose task has meanwhile left the table is silently
/// skipped by the scheduling loop.
pub proof fn lemma_duplicate_wake_tolerated(queue: Seq<usize>, id: usize, buf: Seq<u8>)
    ensures
        queue.push(id).push(id) =~= queue + seq![id, id],
        drain_reads(buf, Seq::<ReadEvent>::empty()) == (buf, ReadOutcome::Blocked),
{
}

} // verus!
