//! A cooperative concurrency runtime built from its three pieces: a
//! poll-based future abstraction, an event-driven readiness notifier
//! (the reactor), and a task scheduler (the executor) that parks its
//! carrier thread when no task is ready. A leaf future that fetches a
//! path over a connection and a hand-written sequential state machine
//! exercise the protocol end to end; a separate, non-interoperating
//! backend schedules stackful fibers round-robin. All I/O, threads,
//! and register-level context swaps live in the embedding; every
//! decision they carry out is made, and proved, here.

pub mod coroutine;
pub mod fibers;
pub mod future;
pub mod http;
pub mod runtime;
