use vstd::prelude::*;
use std::collections::HashMap;
use crate::future::{PollState, Fault};
use crate::http::{Http, HttpGetFuture, ReadEvent, ReadOutcome, drain_reads, trace_of, lossy_text_of};
use crate::runtime::executor::Waker;
use crate::runtime::reactor::{Reactor, Interest};

verus! {

/// Where a sequential two-fetch computation stands: not yet begun,
/// waiting on its first fetch, waiting on its second, or finished.
/// Each waiting state owns the fetch it is waiting on; the second
/// fetch does not exist until the first has yielded its value.
pub enum State {
    Start,
    Wait1(HttpGetFuture),
    Wait2(HttpGetFuture),
    Resolved,
}

/// A hand-written sequential state machine over two leaf fetches:
/// what a structured "await this, then that" computation desugars
/// to. Every transition happens inside poll, which keeps advancing
/// through transitions that are immediately available and only
/// suspends when the fetch it currently owns is not ready. The texts
/// the two fetches yield are recorded in order in `outputs`.
pub struct Coroutine {
    pub state: State,
    /// The resolved texts, in the order they were observed: the
    /// first fetch's text always precedes the second's.
    pub outputs: Vec<String>,
}

impl Coroutine {
    /// The structural invariant tying progress to the record of
    /// observed values: before the first fetch resolves nothing has
    /// been recorded, while the second fetch is pending exactly the
    /// first text has been, and a finished computation recorded both.
    /// A fetch owned by a waiting state has never already resolved;
    /// poll additionally guarantees that, between calls, such a fetch
    /// is set up and registered.
    pub open spec fn wf(self) -> bool {
        match self.state {
            State::Start => self.outputs@.len() == 0,
            State::Wait1(f) => self.outputs@.len() == 0 && !f.resolved,
            State::Wait2(f) => self.outputs@.len() == 1 && !f.resolved,
            State::Resolved => self.outputs@.len() == 2,
        }
    }

    /// Whether the computation has yielded its value.
    pub open spec fn is_resolved(self) -> bool {
        self.state is Resolved
    }

    /// Everything one poll call establishes, relating the machine,
    /// the reactor, the pending reads and the result before and
    /// after. Stated once so that both `Coroutine::poll` and the
    /// task dispatcher promise exactly the same thing.
    pub open spec fn poll_step(
        pre: Coroutine,
        post: Coroutine,
        pre_reactor: Reactor,
        post_reactor: Reactor,
        pre_reads: Map<usize, Vec<ReadEvent>>,
        post_reads: Map<usize, Vec<ReadEvent>>,
        w: Waker,
        r: Result<PollState<()>, Fault>,
    ) -> bool {
        &&& post.wf()
        &&& (pre.is_resolved() ==> r == Err::<PollState<()>, Fault>(Fault::PolledAfterResolve)
            && post == pre && post_reactor == pre_reactor && post_reads == pre_reads)
        &&& (!pre.is_resolved() ==> {
            &&& (r is Err ==> r == Err::<PollState<()>, Fault>(Fault::Io) && !post.is_resolved())
            &&& (r == Ok::<PollState<()>, Fault>(PollState::NotReady) ==> !post.is_resolved())
            &&& (r matches Ok(PollState::Ready(_)) ==> post.is_resolved() && post.outputs@.len()
                == 2)
            &&& pre.outputs@.is_prefix_of(post.outputs@)
            &&& !(post.state is Start)
            &&& (post.state matches State::Wait1(g) ==> g.live())
            &&& (post.state matches State::Wait2(g) ==> g.live())
        })
        &&& (pre.state is Start ==> (post.state matches State::Wait1(g) ==> g.path@
            == "/600/HelloWorld1"@))
        &&& (pre.state is Start ==> (post.state matches State::Wait2(g) ==> g.path@
            == "/400/HelloWorld2"@))
        &&& (pre.state is Start ==> ({
            // the first fetch is issued and polled in this same call:
            // it takes the reactor's next identifier, registers, and
            // drains what that resource already has pending
            let rid = pre_reactor.next_id;
            let step = drain_reads(Seq::<u8>::empty(), trace_of(pre_reads, rid));
            &&& (step.1 == ReadOutcome::Blocked ==> r == Ok::<PollState<()>, Fault>(
                PollState::NotReady,
            ) && (post.state matches State::Wait1(g) && g.rid() == rid && g.buffer@ == step.0)
                && post_reactor.wakers@ == pre_reactor.wakers@.insert(rid, w)
                && post_reactor.registrations@ == pre_reactor.registrations@.insert(
                rid,
                Interest::Readable,
            ) && post_reads == pre_reads.remove(rid))
            &&& (step.1 == ReadOutcome::Finished ==> !(post.state matches State::Wait1(_))
                && post.outputs@.len() >= 1 && post.outputs@[0]@ == lossy_text_of(step.0))
            &&& (step.1 == ReadOutcome::Fatal ==> r == Err::<PollState<()>, Fault>(Fault::Io)
                && (post.state matches State::Wait1(g) && g.rid() == rid && g.buffer@ == step.0))
        }))
        &&& (pre.state matches State::Wait1(f1) ==> f1.started() ==> ({
            let step = drain_reads(f1.buffer@, trace_of(pre_reads, f1.rid()));
            &&& (step.1 == ReadOutcome::Blocked ==> r == Ok::<PollState<()>, Fault>(
                PollState::NotReady,
            ) && (post.state matches State::Wait1(g) && g.buffer@ == step.0) && post.outputs@
                == pre.outputs@ && post_reactor.wakers@ == pre_reactor.wakers@
                && post_reactor.registrations@ == pre_reactor.registrations@
                && post_reactor.next_id == pre_reactor.next_id && post_reads == pre_reads.remove(
                f1.rid(),
            ))
            &&& (step.1 == ReadOutcome::Finished ==> post.outputs@.len() >= 1
                && post.outputs@[0]@ == lossy_text_of(step.0))
            &&& (step.1 == ReadOutcome::Fatal ==> r == Err::<PollState<()>, Fault>(Fault::Io)
                && (post.state matches State::Wait1(g) && g.buffer@ == step.0))
        }))
        &&& (pre.state matches State::Wait2(f2) ==> f2.started() ==> ({
            let step = drain_reads(f2.buffer@, trace_of(pre_reads, f2.rid()));
            &&& (step.1 == ReadOutcome::Blocked ==> r == Ok::<PollState<()>, Fault>(
                PollState::NotReady,
            ) && (post.state matches State::Wait2(g) && g.buffer@ == step.0) && post.outputs@
                == pre.outputs@ && post_reactor.wakers@ == pre_reactor.wakers@
                && post_reactor.registrations@ == pre_reactor.registrations@
                && post_reactor.next_id == pre_reactor.next_id && post_reads == pre_reads.remove(
                f2.rid(),
            ))
            &&& (step.1 == ReadOutcome::Finished ==> r == Ok::<PollState<()>, Fault>(
                PollState::Ready(()),
            ) && post.is_resolved() && post.outputs@.len() == 2 && post.outputs@[0]
                == pre.outputs@[0] && post.outputs@[1]@ == lossy_text_of(step.0)
                && post_reactor.wakers@ == pre_reactor.wakers@.remove(f2.rid())
                && post_reactor.registrations@ == pre_reactor.registrations@.remove(f2.rid())
                && post_reactor.next_id == pre_reactor.next_id && post_reads == pre_reads.remove(
                f2.rid(),
            ))
            &&& (step.1 == ReadOutcome::Fatal ==> r == Err::<PollState<()>, Fault>(Fault::Io)
                && (post.state matches State::Wait2(g) && g.buffer@ == step.0))
        }))
    }

    pub fn new() -> (c: Coroutine)
        ensures
            c.state is Start,
            c.outputs@.len() == 0,
            c.wf(),
    {
        Coroutine { state: State::Start, outputs: Vec::new() }
    }

    /// Attempt to advance the state machine. From the start it issues
    /// the first fetch and polls it at once, without waiting for an
    /// external wake; when a fetch resolves, its text is recorded and
    /// the next transition is attempted in the same call. It suspends
    /// only when the fetch it owns does. Polling after resolution is
    /// rejected; a fatal read failure of either fetch is propagated,
    /// leaving the machine in its waiting state. The whole relation
    /// is `poll_step`.
    #[verifier::loop_isolation(false)]
    pub fn poll(
        &mut self,
        waker: &Waker,
        reactor: &mut Reactor,
        reads: &mut HashMap<usize, Vec<ReadEvent>>,
    ) -> (r: Result<PollState<()>, Fault>)
        requires
            old(self).wf(),
        ensures
            Coroutine::poll_step(
                *old(self),
                *final(self),
                *old(reactor),
                *final(reactor),
                old(reads)@,
                final(reads)@,
                *waker,
                r,
            ),
    {
        loop
            invariant
                self.wf(),
                self.state is Resolved ==> old(self).is_resolved(),
                old(self).is_resolved() ==> *self == *old(self) && *reactor == *old(reactor)
                    && reads@ == old(reads)@,
                old(self).outputs@.is_prefix_of(self.outputs@),
                !(old(self).state is Start) ==> !(self.state is Start),
                self.state is Start ==> *reactor == *old(reactor) && reads@ == old(reads)@
                    && self.outputs@.len() == 0,
                old(self).state is Start ==> (self.state matches State::Wait1(g) ==> !g.started()
                    && !g.resolved && g.buffer@ == Seq::<u8>::empty() && g.path@
                    == "/600/HelloWorld1"@ && reads@ == old(reads)@ && *reactor == *old(reactor)
                    && self.outputs@.len() == 0),
                old(self).state is Start ==> (self.state matches State::Wait2(g) ==> g.path@
                    == "/400/HelloWorld2"@),
                old(self).state is Start ==> ((self.state matches State::Wait2(_)) || self.state
                    is Resolved ==> ({
                    let rid = old(reactor).next_id;
                    let step = drain_reads(Seq::<u8>::empty(), trace_of(old(reads)@, rid));
                    step.1 == ReadOutcome::Finished && self.outputs@.len() >= 1
                        && self.outputs@[0]@ == lossy_text_of(step.0)
                })),
                old(self).state matches State::Wait1(f1) ==> f1.started() ==> ({
                    let step = drain_reads(f1.buffer@, trace_of(old(reads)@, f1.rid()));
                    &&& (self.state matches State::Wait1(g) ==> g == f1 && reads@ == old(reads)@
                        && *reactor == *old(reactor) && self.outputs@ == old(self).outputs@)
                    &&& ((self.state matches State::Wait2(_)) || self.state is Resolved ==> step.1
                        == ReadOutcome::Finished && self.outputs@.len() >= 1 && self.outputs@[0]@
                        == lossy_text_of(step.0))
                }),
                old(self).state matches State::Wait2(f2) ==> f2.started() ==> (self.state
                    matches State::Wait2(g) ==> g == f2 && reads@ == old(reads)@ && *reactor
                    == *old(reactor) && self.outputs@ == old(self).outputs@),
            decreases match self.state {
                State::Start => 3int,
                State::Wait1(_) => 2int,
                State::Wait2(_) => 1int,
                State::Resolved => 0int,
            },
        {
            let mut cur = State::Resolved;
            core::mem::swap(&mut cur, &mut self.state);
            match cur {
                State::Start => {
                    let fut = Http::get("/600/HelloWorld1");
                    self.state = State::Wait1(fut);
                },
                State::Wait1(mut fut) => {
                    let ghost fut_in = fut;
                    match fut.poll(waker, reactor, reads) {
                        Err(e) => {
                            self.state = State::Wait1(fut);
                            return Err(e);
                        },
                        Ok(PollState::NotReady) => {
                            self.state = State::Wait1(fut);
                            return Ok(PollState::NotReady);
                        },
                        Ok(PollState::Ready(txt)) => {
                            self.outputs.push(txt);
                            let fut2 = Http::get("/400/HelloWorld2");
                            self.state = State::Wait2(fut2);
                            proof {
                                // a fetch yields its value only when
                                // its drain finished
                                if old(self).state is Wait1 {
                                    let f1 = old(self).state->Wait1_0;
                                    if f1.started() {
                                        let st = drain_reads(
                                            f1.buffer@,
                                            trace_of(old(reads)@, f1.rid()),
                                        );
                                        assert(st.1 is Blocked || st.1 is Finished || st.1
                                            is Fatal);
                                    }
                                }
                                if old(self).state is Start {
                                    let st = drain_reads(
                                        Seq::<u8>::empty(),
                                        trace_of(old(reads)@, old(reactor).next_id),
                                    );
                                    assert(st.1 is Blocked || st.1 is Finished || st.1 is Fatal);
                                    assert(fut_in.buffer@ =~= Seq::<u8>::empty());
                                }
                            }
                        },
                    }
                },
                State::Wait2(mut fut) => {
                    match fut.poll(waker, reactor, reads) {
                        Err(e) => {
                            self.state = State::Wait2(fut);
                            return Err(e);
                        },
                        Ok(PollState::NotReady) => {
                            self.state = State::Wait2(fut);
                            return Ok(PollState::NotReady);
                        },
                        Ok(PollState::Ready(txt)) => {
                            proof {
                                if old(self).state is Wait2 {
                                    let f2 = old(self).state->Wait2_0;
                                    if f2.started() {
                                        let st = drain_reads(
                                            f2.buffer@,
                                            trace_of(old(reads)@, f2.rid()),
                                        );
                                        assert(st.1 is Blocked || st.1 is Finished || st.1
                                            is Fatal);
                                    }
                                }

                            }
                            self.outputs.push(txt);
                            self.state = State::Resolved;
                            return Ok(PollState::Ready(()));
                        },
                    }
                },
                State::Resolved => {
                    return Err(Fault::PolledAfterResolve);
                },
            }
        }
    }
}

/// The example compound computation: fetch one path, then, once its
/// text has been observed, fetch a second.
pub fn async_main() -> (c: Coroutine)
    ensures
        c.state is Start,
        c.outputs@.len() == 0,
        c.wf(),
{
    Coroutine::new()
}

} // verus!
