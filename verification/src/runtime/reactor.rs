use vstd::prelude::*;
use std::collections::HashMap;
use crate::http::ReadEvent;
use crate::runtime::executor::Waker;

verus! {

broadcast use vstd::std_specs::hash::group_hash_axioms;

/// The readiness an interest registration asks to be told about.
#[derive(Clone, Copy, PartialEq, Eq, Structural, Debug)]
pub enum Interest {
    Readable,
    Writable,
}

/// The event-driven readiness notifier. It owns the registration
/// table that maps each resource identifier to the interest taken in
/// it and to the waker to invoke when the resource becomes ready, and
/// it allocates those identifiers. The OS-level event source and the
/// thread that blocks on it live in the embedding; the decisions they
/// carry out — what a registration records, which waker a readiness
/// event reaches — are all here.
pub struct Reactor {
    /// For each registered resource, the waker to invoke when it
    /// becomes ready.
    pub wakers: HashMap<usize, Waker>,
    /// For each registered resource, the interest registered for it.
    pub registrations: HashMap<usize, Interest>,
    /// The next resource identifier to hand out.
    pub next_id: usize,
}

/// One readiness notification as the event source delivers it: a
/// resource that became ready, together with the trace of reads it
/// now has to offer.
pub struct Readiness {
    pub resource: usize,
    pub trace: Vec<ReadEvent>,
}

impl Reactor {
    /// A fresh reactor with nothing registered. Identifiers start at
    /// one; an instance is created once, before any task performs
    /// I/O.
    pub fn new() -> (r: Reactor)
        ensures
            r.wakers@ == Map::<usize, Waker>::empty(),
            r.registrations@ == Map::<usize, Interest>::empty(),
            r.next_id == 1usize,
    {
        Reactor { wakers: HashMap::new(), registrations: HashMap::new(), next_id: 1 }
    }

    /// Record an interest registration for a resource. Registering an
    /// identifier again overwrites the earlier interest.
    pub fn register(&mut self, interest: Interest, id: usize)
        ensures
            final(self).registrations@ == old(self).registrations@.insert(id, interest),
            final(self).wakers@ == old(self).wakers@,
            final(self).next_id == old(self).next_id,
    {
        let _ = self.registrations.insert(id, interest);
    }

    /// Associate a waker with a registered identifier; re-association
    /// overwrites the earlier waker, so at most one interest is
    /// outstanding per identifier.
    pub fn set_waker(&mut self, waker: &Waker, id: usize)
        ensures
            final(self).wakers@ == old(self).wakers@.insert(id, *waker),
            final(self).registrations@ == old(self).registrations@,
            final(self).next_id == old(self).next_id,
    {
        let _ = self.wakers.insert(id, *waker);
    }

    /// Drop both the interest and the waker of a resource; called
    /// when a future completes, so that no dangling wake-up and no
    /// leaked registration remain.
    pub fn deregister(&mut self, id: usize)
        ensures
            final(self).wakers@ == old(self).wakers@.remove(id),
            final(self).registrations@ == old(self).registrations@.remove(id),
            final(self).next_id == old(self).next_id,
    {
        let _ = self.wakers.remove(&id);
        let _ = self.registrations.remove(&id);
    }

    /// Hand out the next resource identifier. Identifiers grow
    /// monotonically and stop at the largest representable value
    /// rather than wrapping around.
    pub fn next_id(&mut self) -> (id: usize)
        ensures
            id == old(self).next_id,
            final(self).next_id == if old(self).next_id < usize::MAX {
                (old(self).next_id + 1) as usize
            } else {
                usize::MAX
            },
            final(self).wakers@ == old(self).wakers@,
            final(self).registrations@ == old(self).registrations@,
    {
        let id: usize = self.next_id;
        if self.next_id < usize::MAX {
            self.next_id = self.next_id + 1;
        }
        id
    }
}

/// The ready queue that results from delivering a batch of readiness
/// events: for each event in order, the waker registered for its
/// resource pushes its task identifier; an event whose resource has
/// no waker (already deregistered, or racing with completion) is
/// silently dropped.
pub open spec fn queue_after(
    wakers: Map<usize, Waker>,
    batch: Seq<Readiness>,
    queue: Seq<usize>,
) -> Seq<usize>
    decreases batch.len(),
{
    if batch.len() == 0 {
        queue
    } else {
        let q1 = if wakers.contains_key(batch[0].resource) {
            queue.push(wakers[batch[0].resource].id)
        } else {
            queue
        };
        queue_after(wakers, batch.skip(1), q1)
    }
}

/// A pending-read table by contents: what each resource's queued
/// trace holds, independent of the vectors carrying it.
pub open spec fn pending_view(reads: Map<usize, Vec<ReadEvent>>) -> Map<usize, Seq<ReadEvent>> {
    reads.map_values(|v: Vec<ReadEvent>| v@)
}

/// The pending-read table that results from delivering a batch: each
/// event appends the trace its resource now has to offer to whatever
/// that resource still had queued, so bytes already taken off a
/// connection but not yet polled are never discarded by a later
/// notification for the same resource.
pub open spec fn reads_after(
    reads: Map<usize, Seq<ReadEvent>>,
    batch: Seq<Readiness>,
) -> Map<usize, Seq<ReadEvent>>
    decreases batch.len(),
{
    if batch.len() == 0 {
        reads
    } else {
        let merged = if reads.contains_key(batch[0].resource) {
            reads[batch[0].resource] + batch[0].trace@
        } else {
            batch[0].trace@
        };
        reads_after(reads.insert(batch[0].resource, merged), batch.skip(1))
    }
}

/// One round of the event loop: deliver a batch of readiness events.
/// Every event appends its read trace to the resource's pending
/// queue, and the waker registered for its resource — if any still is
/// — is invoked, which enqueues the associated task. The loop that
/// blocks on the OS event source and produces these batches lives in
/// the embedding.
#[verifier::loop_isolation(false)]
pub fn deliver_events(
    reactor: &Reactor,
    batch: Vec<Readiness>,
    ready_queue: &mut Vec<usize>,
    reads: &mut HashMap<usize, Vec<ReadEvent>>,
)
    ensures
        final(ready_queue)@ == queue_after(reactor.wakers@, batch@, old(ready_queue)@),
        pending_view(final(reads)@) == reads_after(pending_view(old(reads)@), batch@),
{
    let mut batch = batch;
    let ghost batch0 = batch@;
    let ghost queue0 = ready_queue@;
    let ghost reads0 = pending_view(reads@);
    proof {
        assert(batch@ =~= batch0.skip(0));
    }
    while batch.len() > 0
        invariant
            queue_after(reactor.wakers@, batch0, queue0) == queue_after(
                reactor.wakers@,
                batch@,
                ready_queue@,
            ),
            reads_after(reads0, batch0) == reads_after(pending_view(reads@), batch@),
        decreases batch@.len(),
    {
        let ghost pre = batch@;
        let ghost reads_pre = pending_view(reads@);
        let ev = batch.remove(0);
        proof {
            assert(batch@ =~= pre.skip(1));
        }
        let Readiness { resource, mut trace } = ev;
        let mut merged: Vec<ReadEvent> = match reads.remove(&resource) {
            Some(queued) => queued,
            None => Vec::new(),
        };
        merged.append(&mut trace);
        let _ = reads.insert(resource, merged);
        proof {
            assert(pending_view(reads@) =~= reads_pre.insert(
                resource,
                if reads_pre.contains_key(resource) {
                    reads_pre[resource] + pre[0].trace@
                } else {
                    pre[0].trace@
                },
            ));
        }
        match reactor.wakers.get(&resource) {
            Some(w) => {
                w.wake(ready_queue);
            },
            None => {
            },
        }
    }
}

} // verus!
