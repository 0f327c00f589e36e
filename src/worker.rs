//! A worker: its record in the pool, and the decision it makes on each
//! answer of the queue.
use vstd::prelude::*;

use crate::queue::Recv;

verus! {

/// A worker's record in the pool: its id and, until shutdown, the handle of
/// its thread.
pub struct Worker<H> {
    /// The worker's index in the pool, for diagnostics only.
    pub id: usize,
    /// The handle of the worker's thread, until it is taken to be joined.
    pub thread: Option<H>,
}

impl<H> Worker<H> {
    /// A worker record that owns the handle of a running thread.
    pub fn new(id: usize, thread: H) -> (w: Self)
        ensures
            w.id == id,
            w.thread == Some(thread),
    {
        Worker { id, thread: Some(thread) }
    }

    /// Whether the thread handle is still held, so that the thread can be
    /// joined.
    pub fn is_joinable(&self) -> (r: bool)
        ensures
            r == self.thread is Some,
    {
        self.thread.is_some()
    }

    /// Hands out the thread handle, if it is still held; afterwards the
    /// record holds none, so a thread is joined at most once.
    pub fn take_thread(&mut self) -> (r: Option<H>)
        ensures
            r == old(self).thread,
            final(self).thread is None,
            final(self).id == old(self).id,
    {
        self.thread.take()
    }
}

/// Where a worker's loop stands.
#[derive(PartialEq, Eq, Structural, Clone, Copy, Debug)]
pub enum Phase {
    /// Taking jobs from the queue and running them.
    Running,
    /// The loop has ended and the thread exits.
    Terminated,
}

/// What a worker does next.
pub enum Action<T> {
    /// Run this job to completion, then ask the queue again.
    Execute(T),
    /// Block until the queue has news, then ask again.
    Wait,
    /// Leave the loop: the queue is closed and drained.
    Exit,
}

/// The spec of a worker's step: a job is run, an empty queue is waited on,
/// and a closed, drained queue ends the loop.
pub open spec fn step_spec<T>(msg: Recv<T>) -> (Phase, Action<T>) {
    match msg {
        Recv::Job(job) => (Phase::Running, Action::Execute(job)),
        Recv::Empty => (Phase::Running, Action::Wait),
        Recv::Closed => (Phase::Terminated, Action::Exit),
    }
}

/// One step of a running worker on the answer `msg` of a receive attempt:
/// its next phase and what it does. A terminated worker asks nothing more.
pub fn step<T>(phase: Phase, msg: Recv<T>) -> (r: (Phase, Action<T>))
    requires
        phase == Phase::Running,
    ensures
        r == step_spec(msg),
{
    match msg {
        Recv::Job(job) => (Phase::Running, Action::Execute(job)),
        Recv::Empty => (Phase::Running, Action::Wait),
        Recv::Closed => (Phase::Terminated, Action::Exit),
    }
}

} // verus!
