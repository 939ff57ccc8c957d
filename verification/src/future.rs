use vstd::prelude::*;

verus! {

/// The result of attempting to advance a suspendable computation by one
/// step: either the underlying condition has not been met yet, or the
/// computation has finished and carries its value, exactly once.
pub enum PollState<T> {
    NotReady,
    Ready(T),
}

/// The unrecoverable conditions of the runtime: usage violations and
/// unclassified I/O failures. Expected states (not ready yet,
/// interrupted reads) are absorbed inside the futures and never
/// surface here.
#[derive(Clone, Copy, PartialEq, Eq, Structural, Debug)]
pub enum Fault {
    /// A future was polled again after it had already yielded its value.
    PolledAfterResolve,
    /// A read failed for a reason other than "would block" or
    /// "interrupted"; the task cannot make further progress.
    Io,
}

impl Fault {
    /// A short description of the fault, for embedding programs that
    /// want to report it.
    pub fn describe(&self) -> &'static str {
        match self {
            Fault::PolledAfterResolve => "polled a resolved future",
            Fault::Io => "unrecoverable i/o failure",
        }
    }
}

} // verus!
