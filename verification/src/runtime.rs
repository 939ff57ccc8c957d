pub mod executor;
pub mod reactor;

use vstd::prelude::*;
use crate::runtime::executor::Executor;
use crate::runtime::reactor::Reactor;

verus! {

/// Create the runtime pair with its explicit lifecycle: a fresh
/// reactor with nothing registered, and a fresh executor with an
/// empty task table. The embedding starts the thread that blocks on
/// the OS event source and feeds the reactor's decisions; every leaf
/// future receives the reactor by reference rather than through
/// ambient global state.
pub fn init() -> (rt: (Executor, Reactor))
    ensures
        rt.0.wf(),
        rt.0.tasks@ == Map::<usize, executor::Task>::empty(),
        rt.0.ready_queue@ == Seq::<usize>::empty(),
        rt.0.next_id == 0usize,
        rt.1.wakers@ == Map::<usize, executor::Waker>::empty(),
        rt.1.registrations@ == Map::<usize, reactor::Interest>::empty(),
        rt.1.next_id == 1usize,
{
    (Executor::new(), Reactor::new())
}

} // verus!
