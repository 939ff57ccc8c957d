use vstd::prelude::*;
use vstd::string::StringExecFns;
use std::collections::HashMap;
use crate::future::{PollState, Fault};
use crate::runtime::executor::Waker;
use crate::runtime::reactor::{Reactor, Interest};

verus! {

broadcast use vstd::std_specs::hash::group_hash_axioms;

/// The outcome of one non-blocking read on a connection, as the
/// embedding observes it and hands it to the leaf future.
pub enum ReadEvent {
    /// The read returned these bytes; more may follow.
    Data(Vec<u8>),
    /// The read returned zero bytes: the peer closed the connection,
    /// which is how the response is known to be complete.
    Closed,
    /// The read would have to wait for the peer; the future suspends.
    WouldBlock,
    /// The read was interrupted and is retried immediately.
    Interrupted,
    /// The read failed for any other reason; unrecoverable.
    Failed,
}

/// How a run of reads ended: still waiting for bytes, finished by a
/// clean close, or stopped by an unclassified failure.
pub enum ReadOutcome {
    Blocked,
    Finished,
    Fatal,
}

/// What draining a trace of read outcomes does to an accumulating
/// byte buffer: data is appended and the drain keeps going,
/// interruptions are skipped, and the first terminal event (a close,
/// a would-block, or a failure) stops it. An exhausted trace means
/// the connection currently has nothing more to offer, which is the
/// same as a would-block.
pub open spec fn drain_reads(buf: Seq<u8>, trace: Seq<ReadEvent>) -> (Seq<u8>, ReadOutcome)
    decreases trace.len(),
{
    if trace.len() == 0 {
        (buf, ReadOutcome::Blocked)
    } else {
        match trace[0] {
            ReadEvent::Data(d) => drain_reads(buf + d@, trace.skip(1)),
            ReadEvent::Interrupted => drain_reads(buf, trace.skip(1)),
            ReadEvent::Closed => (buf, ReadOutcome::Finished),
            ReadEvent::WouldBlock => (buf, ReadOutcome::Blocked),
            ReadEvent::Failed => (buf, ReadOutcome::Fatal),
        }
    }
}

/// The read trace currently pending for a resource: what successive
/// reads on it would yield right now. A resource with no entry has
/// nothing to offer and reads on it would block.
pub open spec fn trace_of(reads: Map<usize, Vec<ReadEvent>>, rid: usize) -> Seq<ReadEvent> {
    if reads.contains_key(rid) {
        reads[rid]@
    } else {
        Seq::<ReadEvent>::empty()
    }
}

/// The text that decoding a byte buffer yields.
pub uninterp spec fn lossy_text_of(bytes: Seq<u8>) -> Seq<char>;

/// Relies on String::from_utf8_lossy: the decoded text is a function
/// of the bytes alone (invalid sequences become replacement
/// characters), and no bytes decode to no text.
#[verifier::external_body]
fn decode_text(bytes: &Vec<u8>) -> (r: String)
    ensures
        r@ == lossy_text_of(bytes@),
        bytes@.len() == 0 ==> r@.len() == 0,
{
    String::from_utf8_lossy(bytes).to_string()
}

/// The request line and headers sent for a path: a GET for it,
/// closing the connection after the response.
pub open spec fn request_for(path: Seq<char>) -> Seq<char> {
    "GET "@ + path + " HTTP/1.1\r\nHost: localhost\r\nConnection: close\r\n\r\n"@
}

/// Builds the textual request for a path: the method and path, the
/// protocol version, a Host header and a Connection: close header,
/// terminated by an empty line.
pub fn get_req(path: &str) -> (r: String)
    ensures
        r@ == request_for(path@),
{
    let mut req = String::from_str("GET ");
    req.append(path);
    req.append(" HTTP/1.1\r\nHost: localhost\r\nConnection: close\r\n\r\n");
    proof {
        assert(req@ =~= request_for(path@));
    }
    req
}

/// The example leaf computation: a non-blocking fetch over a
/// connection. On its first poll it allocates a resource identifier,
/// records the request it issues, and registers read interest with
/// the reactor; on every later poll it drains whatever bytes the
/// connection has pending, resolving when the peer closes.
pub struct HttpGetFuture {
    /// The reactor-allocated identifier of the connection, once the
    /// first poll has set it up.
    pub resource: Option<usize>,
    /// The request issued on first poll, kept so the embedding can
    /// write it to the connection.
    pub request_sent: Option<String>,
    /// Everything read so far.
    pub buffer: Vec<u8>,
    /// The path being fetched.
    pub path: String,
    /// Whether this future has already yielded its value; polling it
    /// again afterwards is a usage error.
    pub resolved: bool,
}

/// The entry point for the example leaf future.
pub struct Http;

impl Http {
    /// A future that fetches the given path.
    pub fn get(path: &str) -> (f: HttpGetFuture)
        ensures
            !f.started(),
            !f.resolved,
            f.buffer@ == Seq::<u8>::empty(),
            f.path@ == path@,
            f.request_sent is None,
    {
        HttpGetFuture::new(path)
    }
}

impl HttpGetFuture {
    /// Whether the first poll has already set the connection up.
    pub open spec fn started(self) -> bool {
        self.resource is Some
    }

    /// The resource identifier of the connection.
    pub open spec fn rid(self) -> usize {
        self.resource->0
    }

    /// A future that has been set up but not resolved: the state in
    /// which it sits in the reactor's tables awaiting bytes.
    pub open spec fn live(self) -> bool {
        self.started() && !self.resolved
    }

    fn new(path: &str) -> (f: HttpGetFuture)
        ensures
            !f.started(),
            !f.resolved,
            f.buffer@ == Seq::<u8>::empty(),
            f.path@ == path@,
            f.request_sent is None,
    {
        HttpGetFuture {
            resource: None,
            request_sent: None,
            buffer: Vec::new(),
            path: String::from_str(path),
            resolved: false,
        }
    }

    /// Attempt to advance the fetch, given the read trace the
    /// embedding has pending for each resource. A first poll performs
    /// the one-time setup: it takes a fresh identifier, records the
    /// request to issue, and registers read interest together with
    /// the waker. Every poll then drains the pending reads: data is
    /// accumulated and the drain retried at once, an interruption is
    /// retried, a would-block (or no pending trace at all) suspends
    /// without touching the registration, and a clean close resolves
    /// the future with the decoded text and deregisters it. Polling a
    /// resolved future is rejected; any other read failure is fatal.
    #[verifier::loop_isolation(false)]
    pub fn poll(
        &mut self,
        waker: &Waker,
        reactor: &mut Reactor,
        reads: &mut HashMap<usize, Vec<ReadEvent>>,
    ) -> (r: Result<PollState<String>, Fault>)
        ensures
            old(self).resolved ==> r == Err::<PollState<String>, Fault>(Fault::PolledAfterResolve)
                && *final(self) == *old(self) && *final(reactor) == *old(reactor)
                && final(reads)@ == old(reads)@,
            !old(self).resolved ==> ({
                let rid: usize = if old(self).started() {
                    old(self).rid()
                } else {
                    old(reactor).next_id
                };
                let step = drain_reads(old(self).buffer@, trace_of(old(reads)@, rid));
                &&& final(reads)@ == old(reads)@.remove(rid)
                &&& final(self).resource == Some(rid)
                &&& final(self).path@ == old(self).path@
                &&& final(self).buffer@ == step.0
                &&& (old(self).started() ==> final(self).request_sent == old(self).request_sent)
                &&& (!old(self).started() ==> (final(self).request_sent matches Some(q)
                    && q@ == request_for(old(self).path@)))
                &&& (step.1 == ReadOutcome::Blocked ==> r == Ok::<PollState<String>, Fault>(
                    PollState::NotReady,
                ) && !final(self).resolved)
                &&& (step.1 == ReadOutcome::Finished ==> (r matches Ok(PollState::Ready(s))
                    && s@ == lossy_text_of(step.0)) && final(self).resolved)
                &&& (step.1 == ReadOutcome::Fatal ==> r == Err::<PollState<String>, Fault>(
                    Fault::Io,
                ) && !final(self).resolved)
                &&& ({
                    let wmid = if old(self).started() {
                        old(reactor).wakers@
                    } else {
                        old(reactor).wakers@.insert(rid, *waker)
                    };
                    let gmid = if old(self).started() {
                        old(reactor).registrations@
                    } else {
                        old(reactor).registrations@.insert(rid, Interest::Readable)
                    };
                    &&& (step.1 != ReadOutcome::Finished ==> final(reactor).wakers@ == wmid
                        && final(reactor).registrations@ == gmid)
                    &&& (step.1 == ReadOutcome::Finished ==> final(reactor).wakers@ == wmid.remove(
                        rid,
                    ) && final(reactor).registrations@ == gmid.remove(rid))
                })
                &&& final(reactor).next_id == (if old(self).started() {
                    old(reactor).next_id as int
                } else if old(reactor).next_id < usize::MAX {
                    old(reactor).next_id + 1
                } else {
                    usize::MAX as int
                })
            }),
    {
        if self.resolved {
            return Err(Fault::PolledAfterResolve);
        }
        if self.resource.is_none() {
            let id: usize = reactor.next_id();
            let req = get_req(self.path.as_str());
            self.request_sent = Some(req);
            reactor.register(Interest::Readable, id);
            reactor.set_waker(waker, id);
            self.resource = Some(id);
        }
        let rid: usize = self.resource.unwrap();
        let ghost buf0 = self.buffer@;
        let ghost trace0 = trace_of(old(reads)@, rid);
        match reads.remove(&rid) {
            None => {
                proof {
                    assert(drain_reads(buf0, trace0) == (buf0, ReadOutcome::Blocked));
                }
                Ok(PollState::NotReady)
            },
            Some(trace) => {
                let mut i: usize = 0;
                let ghost path0 = self.path@;
                let ghost req0 = self.request_sent;
                let ghost reactor_mid = *reactor;
                proof {
                    assert(trace@.skip(0) =~= trace0);
                }
                while i < trace.len()
                    invariant
                        i <= trace.len(),
                        drain_reads(buf0, trace0) == drain_reads(
                            self.buffer@,
                            trace@.skip(i as int),
                        ),
                        self.resource == Some(rid),
                        !self.resolved,
                        self.path@ == path0,
                        self.request_sent == req0,
                        *reactor == reactor_mid,
                    decreases trace.len() - i,
                {
                    let ghost pre = self.buffer@;
                    let ghost rest = trace@.skip(i as int);
                    proof {
                        assert(rest[0] == trace@[i as int]);
                        assert(rest.skip(1) =~= trace@.skip(i as int + 1));
                    }
                    match &trace[i] {
                        ReadEvent::Data(d) => {
                            proof {
                                assert(self.buffer@ =~= pre + d@.subrange(0, 0));
                            }
                            let mut j: usize = 0;
                            while j < d.len()
                                invariant
                                    j <= d@.len(),
                                    self.buffer@ == pre + d@.subrange(0, j as int),
                                    self.resource == Some(rid),
                                    !self.resolved,
                                    self.path@ == path0,
                                    self.request_sent == req0,
                                decreases d@.len() - j,
                            {
                                proof {
                                    assert(pre + d@.subrange(0, j as int + 1) =~= (pre
                                        + d@.subrange(0, j as int)).push(d@[j as int]));
                                }
                                self.buffer.push(d[j]);
                                j = j + 1;
                            }
                            proof {
                                assert(d@.subrange(0, d@.len() as int) =~= d@);
                                assert(rest[0] == ReadEvent::Data(*d));
                                assert(drain_reads(buf0, trace0) == drain_reads(
                                    self.buffer@,
                                    rest.skip(1),
                                ));
                            }
                            i = i + 1;
                        },
                        ReadEvent::Interrupted => {
                            proof {
                                assert(drain_reads(buf0, trace0) == drain_reads(
                                    self.buffer@,
                                    rest.skip(1),
                                ));
                            }
                            i = i + 1;
                        },
                        ReadEvent::Closed => {
                            self.resolved = true;
                            reactor.deregister(rid);
                            let text = decode_text(&self.buffer);
                            return Ok(PollState::Ready(text));
                        },
                        ReadEvent::WouldBlock => {
                            return Ok(PollState::NotReady);
                        },
                        ReadEvent::Failed => {
                            return Err(Fault::Io);
                        },
                    }
                }
                proof {
                    assert(trace@.skip(trace@.len() as int) =~= Seq::<ReadEvent>::empty());
                }
                Ok(PollState::NotReady)
            },
        }
    }
}

} // verus!
