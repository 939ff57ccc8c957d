use std::collections::HashMap;
use minirt::coroutine::{async_main, State};
use minirt::future::{Fault, PollState};
use minirt::http::{Http, ReadEvent};
use minirt::runtime::executor::{Executor, RunError, SchedAction, Task, Waker};
use minirt::runtime::init;
use minirt::runtime::reactor::{deliver_events, Interest, Reactor, Readiness};

fn ready(resource: usize, trace: Vec<ReadEvent>) -> Readiness {
    Readiness { resource, trace }
}

#[test]
fn spawn_assigns_fresh_ids_and_queues() {
    let mut ex = Executor::new();
    let a = ex.spawn(Task::Fetch(Http::get("/a")));
    let b = ex.spawn(Task::Fetch(Http::get("/b")));
    assert_eq!((a, b), (0, 1));
    assert_eq!(ex.task_count(), 2);
    assert_eq!(ex.ready_queue, vec![0, 1]);
    assert_eq!(ex.pop_ready(), Some(1));
    assert_eq!(ex.pop_ready(), Some(0));
    assert_eq!(ex.pop_ready(), None);
    assert_eq!(ex.task_count(), 2);
}

#[test]
fn absent_task_yields_nothing() {
    let mut ex = Executor::new();
    let id = ex.spawn(Task::Fetch(Http::get("/a")));
    assert!(ex.get_future(99).is_none());
    assert!(ex.get_future(id).is_some());
    // removed while polled: a second take finds nothing
    assert!(ex.get_future(id).is_none());
    assert_eq!(ex.task_count(), 0);
}

#[test]
fn parks_only_on_drained_queue() {
    let mut ex = Executor::new();
    assert!(matches!(ex.next_action(), SchedAction::Finish));
    let id = ex.spawn(Task::Fetch(Http::get("/a")));
    assert!(matches!(ex.next_action(), SchedAction::RunReady));
    assert_eq!(ex.pop_ready(), Some(id));
    // tasks remain, queue drained: the scheduler would park
    assert!(matches!(ex.next_action(), SchedAction::Park));
    // a wake that lands just before parking keeps the carrier running
    let waker = ex.get_waker(id);
    waker.wake(&mut ex.ready_queue);
    assert!(matches!(ex.next_action(), SchedAction::RunReady));
}

#[test]
fn duplicate_wake_leaves_two_harmless_entries() {
    let waker = Waker { id: 3 };
    let mut queue: Vec<usize> = Vec::new();
    waker.wake(&mut queue);
    waker.wake(&mut queue);
    assert_eq!(queue, vec![3, 3]);
}

#[test]
fn duplicate_wake_does_not_disturb_a_run() {
    let (mut ex, mut reactor) = init();
    // the same resource reported ready twice in one batch: its task id
    // is queued twice, and the extra poll is a harmless no-op
    let batches = vec![vec![
        ready(1, vec![]),
        ready(1, vec![ReadEvent::Data(b"dup".to_vec()), ReadEvent::Closed]),
    ]];
    let mut batches = batches;
    let (r, _) = ex.block_on(Task::Fetch(Http::get("/echo")), &mut reactor, &mut batches);
    assert!(matches!(r, Ok(ref text) if text == "dup"));
    assert_eq!(ex.task_count(), 0);
}

#[test]
fn end_to_end_fetch_resolves_to_peer_bytes() {
    let (mut ex, mut reactor) = init();
    let batches = vec![
        vec![ready(1, vec![ReadEvent::Data(b"Hello".to_vec()), ReadEvent::WouldBlock])],
        vec![ready(1, vec![ReadEvent::Data(b"World1".to_vec()), ReadEvent::Closed])],
    ];
    let mut batches = batches;
    let (r, _) = ex.block_on(Task::Fetch(Http::get("/echo")), &mut reactor, &mut batches);
    assert!(matches!(r, Ok(ref text) if text == "HelloWorld1"));
    assert_eq!(ex.task_count(), 0);
    assert_eq!(ex.ready_queue.len(), 0);
    // completion removed the registration
    assert!(!reactor.wakers.contains_key(&1));
}

#[test]
fn drains_every_spawned_task_in_any_arrival_order() {
    let (mut ex, mut reactor) = init();
    ex.spawn(Task::Fetch(Http::get("/a")));
    ex.spawn(Task::Fetch(Http::get("/b")));
    ex.spawn(Task::Fetch(Http::get("/c")));
    // initial polls pop ids 3,2,1,0 and take resources 1,2,3,4;
    // readiness then arrives in a scrambled order
    let batches = vec![
        vec![ready(3, vec![ReadEvent::Data(b"three".to_vec()), ReadEvent::Closed])],
        vec![
            ready(1, vec![ReadEvent::Data(b"one".to_vec()), ReadEvent::Closed]),
            ready(4, vec![ReadEvent::Data(b"four".to_vec()), ReadEvent::Closed]),
        ],
        vec![ready(2, vec![ReadEvent::Data(b"two".to_vec()), ReadEvent::Closed])],
    ];
    let mut batches = batches;
    let (r, _) = ex.block_on(Task::Fetch(Http::get("/main")), &mut reactor, &mut batches);
    // the value returned is the spawned argument's own text
    assert!(matches!(r, Ok(ref text) if text == "one"));
    assert_eq!(ex.task_count(), 0);
    assert_eq!(ex.ready_queue.len(), 0);
}

#[test]
fn run_stalls_when_readiness_runs_out() {
    let (mut ex, mut reactor) = init();
    let mut batches: Vec<Vec<Readiness>> = Vec::new();
    let (r, _) = ex.block_on(Task::Fetch(Http::get("/never")), &mut reactor, &mut batches);
    assert!(matches!(r, Err(RunError::Stalled)));
    assert_eq!(ex.task_count(), 1);
}

#[test]
fn fatal_read_fault_aborts_the_run() {
    let (mut ex, mut reactor) = init();
    let mut batches = vec![vec![ready(1, vec![ReadEvent::Failed])]];
    let (r, _) = ex.block_on(Task::Fetch(Http::get("/echo")), &mut reactor, &mut batches);
    assert!(matches!(r, Err(RunError::Faulted(Fault::Io))));
}

#[test]
fn reactor_registration_lifecycle() {
    let mut reactor = Reactor::new();
    assert_eq!(reactor.next_id(), 1);
    assert_eq!(reactor.next_id(), 2);
    assert_eq!(reactor.next_id, 3);
    let w = Waker { id: 5 };
    reactor.register(Interest::Readable, 2);
    reactor.set_waker(&w, 2);
    assert_eq!(reactor.wakers.get(&2).map(|w| w.id), Some(5));
    // re-association overwrites
    let w2 = Waker { id: 6 };
    reactor.set_waker(&w2, 2);
    assert_eq!(reactor.wakers.get(&2).map(|w| w.id), Some(6));
    reactor.deregister(2);
    assert!(!reactor.wakers.contains_key(&2));
    assert!(!reactor.registrations.contains_key(&2));
}

#[test]
fn events_without_waker_are_dropped_silently() {
    let mut reactor = Reactor::new();
    let w = Waker { id: 9 };
    reactor.register(Interest::Readable, 4);
    reactor.set_waker(&w, 4);
    let mut queue: Vec<usize> = Vec::new();
    let mut reads: HashMap<usize, Vec<ReadEvent>> = HashMap::new();
    let batch = vec![
        ready(4, vec![ReadEvent::Closed]),
        ready(8, vec![ReadEvent::Closed]),
    ];
    deliver_events(&reactor, batch, &mut queue, &mut reads);
    assert_eq!(queue, vec![9]);
    assert!(reads.contains_key(&4));
}

#[test]
fn second_notification_appends_to_pending_trace() {
    let mut reactor = Reactor::new();
    let w = Waker { id: 1 };
    reactor.register(Interest::Readable, 7);
    reactor.set_waker(&w, 7);
    let mut queue: Vec<usize> = Vec::new();
    let mut reads: HashMap<usize, Vec<ReadEvent>> = HashMap::new();
    let batch = vec![
        ready(7, vec![ReadEvent::Data(b"first".to_vec())]),
        ready(7, vec![ReadEvent::WouldBlock]),
    ];
    deliver_events(&reactor, batch, &mut queue, &mut reads);
    assert_eq!(queue, vec![1, 1]);
    let trace = reads.get(&7).unwrap();
    assert_eq!(trace.len(), 2);
    assert!(matches!(trace[0], ReadEvent::Data(ref d) if d == b"first"));
    assert!(matches!(trace[1], ReadEvent::WouldBlock));
}

#[test]
fn late_empty_notification_does_not_discard_pending_bytes() {
    let (mut ex, mut reactor) = init();
    // bytes were already queued for the resource when a second, empty
    // notification for it arrives: the empty trace appends, it does
    // not replace, and the bytes still reach the future
    let mut batches = vec![vec![
        ready(1, vec![ReadEvent::Data(b"kept".to_vec()), ReadEvent::Closed]),
        ready(1, vec![]),
    ]];
    let (r, _) = ex.block_on(Task::Fetch(Http::get("/echo")), &mut reactor, &mut batches);
    assert!(matches!(r, Ok(ref text) if text == "kept"));
    assert_eq!(ex.task_count(), 0);
}

#[test]
fn compound_fatal_fault_leaves_machine_unresolved() {
    let (ex, mut reactor) = init();
    let waker = ex.get_waker(0);
    let mut reads: HashMap<usize, Vec<ReadEvent>> = HashMap::new();
    let mut c = async_main();
    assert!(matches!(c.poll(&waker, &mut reactor, &mut reads), Ok(PollState::NotReady)));
    reads.insert(1, vec![ReadEvent::Failed]);
    assert!(matches!(c.poll(&waker, &mut reactor, &mut reads), Err(Fault::Io)));
    assert!(matches!(c.state, State::Wait1(_)));
    assert_eq!(c.outputs.len(), 0);
}

#[test]
fn compound_completes_first_fetch_before_issuing_second() {
    let (ex, mut reactor) = init();
    let waker = ex.get_waker(0);
    let mut reads: HashMap<usize, Vec<ReadEvent>> = HashMap::new();
    let mut c = async_main();

    // first poll: the first fetch is issued and registered, nothing read
    assert!(matches!(c.poll(&waker, &mut reactor, &mut reads), Ok(PollState::NotReady)));
    assert!(matches!(c.state, State::Wait1(_)));
    assert_eq!(c.outputs.len(), 0);

    // the first fetch has the longer simulated delay: two empty rounds
    assert!(matches!(c.poll(&waker, &mut reactor, &mut reads), Ok(PollState::NotReady)));
    assert_eq!(c.outputs.len(), 0);

    // first response arrives and the second fetch is issued at once,
    // within the same poll, on resource 2
    reads.insert(1, vec![ReadEvent::Data(b"HelloWorld1".to_vec()), ReadEvent::Closed]);
    assert!(matches!(c.poll(&waker, &mut reactor, &mut reads), Ok(PollState::NotReady)));
    assert!(matches!(c.state, State::Wait2(_)));
    assert_eq!(c.outputs, vec!["HelloWorld1".to_string()]);
    assert!(reactor.wakers.contains_key(&2));

    // second response, shorter delay already over
    reads.insert(2, vec![ReadEvent::Data(b"HelloWorld2".to_vec()), ReadEvent::Closed]);
    assert!(matches!(c.poll(&waker, &mut reactor, &mut reads), Ok(PollState::Ready(()))));
    assert!(matches!(c.state, State::Resolved));
    assert_eq!(
        c.outputs,
        vec!["HelloWorld1".to_string(), "HelloWorld2".to_string()]
    );

    // the resolved compound future rejects further polls
    assert!(matches!(
        c.poll(&waker, &mut reactor, &mut reads),
        Err(Fault::PolledAfterResolve)
    ));
}

#[test]
fn compound_runs_under_the_executor() {
    let (mut ex, mut reactor) = init();
    let batches = vec![
        vec![ready(1, vec![ReadEvent::Data(b"HelloWorld1".to_vec()), ReadEvent::Closed])],
        vec![ready(2, vec![ReadEvent::Data(b"HelloWorld2".to_vec()), ReadEvent::Closed])],
    ];
    let mut batches = batches;
    let (r, _) = ex.block_on(Task::Chain(async_main()), &mut reactor, &mut batches);
    assert!(matches!(r, Ok(ref text) if text.is_empty()));
    assert_eq!(ex.task_count(), 0);
}
