//! The pool's bookkeeping: its workers, numbered from zero, and the producer
//! handle through which jobs reach the queue.
//!
//! Shutdown is two steps, in this order: the producer handle is released,
//! which lets the caller close the queue, and only then are the thread
//! handles taken to be joined. Taking them while the producer handle is held
//! is refused by contract, since the workers would wait forever for jobs.
use vstd::prelude::*;

use crate::worker::Worker;

verus! {

/// The handles still held by `ws`, in worker order.
pub open spec fn handles_of<H>(ws: Seq<Worker<H>>) -> Seq<H>
    decreases ws.len(),
{
    if ws.len() == 0 {
        Seq::empty()
    } else {
        let rest = handles_of(ws.drop_last());
        match ws.last().thread {
            Some(h) => rest.push(h),
            None => rest,
        }
    }
}

/// A fixed-size pool of workers, generic over the thread handle `H` and the
/// producer handle `S`.
pub struct ThreadPool<H, S> {
    workers: Vec<Worker<H>>,
    sender: Option<S>,
}

impl<H, S> ThreadPool<H, S> {
    /// The workers, in id order.
    pub closed spec fn workers_spec(&self) -> Seq<Worker<H>> {
        self.workers@
    }

    /// The producer handle, until it is released.
    pub closed spec fn sender_spec(&self) -> Option<S> {
        self.sender
    }

    /// At least one worker, and each worker's id is its index.
    pub open spec fn wf(&self) -> bool {
        &&& self.workers_spec().len() > 0
        &&& forall|i: int|
            0 <= i < self.workers_spec().len() ==> #[trigger] self.workers_spec()[i].id == i
    }

    /// Starts `size` workers: `spawn(id)` is called once for each id from
    /// `0` to `size - 1`, in that order, and the handle it returns is kept in
    /// the worker of that id. The pool holds `sender` until it is released.
    pub fn new<F: Fn(usize) -> H>(size: usize, sender: S, spawn: F) -> (pool: Self)
        requires
            size > 0,
            forall|id: usize| id < size ==> #[trigger] spawn.requires((id,)),
        ensures
            pool.wf(),
            pool.workers_spec().len() == size,
            forall|i: int|
                0 <= i < size ==> {
                    &&& (#[trigger] pool.workers_spec()[i]).thread matches Some(h)
                    &&& spawn.ensures((i as usize,), h)
                },
            pool.sender_spec() == Some(sender),
    {
        let mut workers: Vec<Worker<H>> = Vec::with_capacity(size);
        let mut id: usize = 0;
        while id < size
            invariant
                id <= size,
                workers@.len() == id,
                forall|i: usize| i < size ==> #[trigger] spawn.requires((i,)),
                forall|i: int|
                    0 <= i < id ==> {
                        &&& (#[trigger] workers@[i]).id == i
                        &&& workers@[i].thread matches Some(h)
                        &&& spawn.ensures((i as usize,), h)
                    },
            decreases size - id,
        {
            let thread = spawn(id);
            workers.push(Worker::new(id, thread));
            id = id + 1;
        }
        ThreadPool { workers, sender: Some(sender) }
    }

    /// The number of workers.
    pub fn size(&self) -> (r: usize)
        ensures
            r == self.workers_spec().len(),
    {
        self.workers.len()
    }

    /// The workers, in id order.
    pub fn workers(&self) -> (r: &Vec<Worker<H>>)
        ensures
            r@ == self.workers_spec(),
    {
        &self.workers
    }

    /// The producer handle, while the pool still holds it.
    pub fn sender(&self) -> (r: Option<&S>)
        ensures
            r is Some <==> self.sender_spec() is Some,
            r matches Some(s) ==> *s == self.sender_spec()->0,
    {
        self.sender.as_ref()
    }

    /// Hands out the producer handle, if the pool still holds it; afterwards
    /// the pool holds none, so a second call returns `None`.
    pub fn release_sender(&mut self) -> (r: Option<S>)
        ensures
            r == old(self).sender_spec(),
            final(self).sender_spec() is None,
            final(self).workers_spec() == old(self).workers_spec(),
    {
        self.sender.take()
    }

    /// Takes every thread handle still held, in worker order, once the
    /// producer handle has been released. Afterwards no worker holds a
    /// handle, so each thread is handed out for joining exactly once.
    pub fn take_threads(&mut self) -> (r: Vec<H>)
        requires
            old(self).wf(),
            old(self).sender_spec() is None,
        ensures
            final(self).wf(),
            final(self).sender_spec() is None,
            r@ == handles_of(old(self).workers_spec()),
            final(self).workers_spec().len() == old(self).workers_spec().len(),
            forall|i: int|
                0 <= i < final(self).workers_spec().len() ==> (
                #[trigger] final(self).workers_spec()[i]).thread is None,
            handles_of(final(self).workers_spec()) == Seq::<H>::empty(),
    {
        let ghost before = self.workers@;
        let mut handles: Vec<H> = Vec::new();
        let mut i: usize = 0;
        while i < self.workers.len()
            invariant
                self.wf(),
                self.sender is None,
                self.workers@.len() == before.len(),
                i <= before.len(),
                forall|j: int| 0 <= j < i ==> (#[trigger] self.workers@[j]).thread is None,
                forall|j: int| i <= j < before.len() ==> #[trigger] self.workers@[j] == before[j],
                handles@ == handles_of(before.take(i as int)),
            decreases before.len() - i,
        {
            proof {
                assert(before.take(i + 1).drop_last() =~= before.take(i as int));
            }
            if let Some(h) = self.workers[i].take_thread() {
                handles.push(h);
            }
            i = i + 1;
        }
        proof {
            assert(before.take(before.len() as int) =~= before);
            lemma_no_handles(self.workers@);
        }
        handles
    }
}

/// The workers of a pool have distinct ids, from `0` to its size less one.
pub proof fn lemma_worker_ids_distinct<H, S>(pool: &ThreadPool<H, S>)
    requires
        pool.wf(),
    ensures
        forall|i: int|
            0 <= i < pool.workers_spec().len() ==> #[trigger] pool.workers_spec()[i].id
                < pool.workers_spec().len(),
        forall|i: int, j: int|
            0 <= i < pool.workers_spec().len() && 0 <= j < pool.workers_spec().len() && i != j
                ==> #[trigger] pool.workers_spec()[i].id != #[trigger] pool.workers_spec()[j].id,
{
}

/// Workers that hold no handle yield none.
proof fn lemma_no_handles<H>(ws: Seq<Worker<H>>)
    requires
        forall|j: int| 0 <= j < ws.len() ==> (#[trigger] ws[j]).thread is None,
    ensures
        handles_of(ws) == Seq::<H>::empty(),
    decreases ws.len(),
{
    if ws.len() > 0 {
        lemma_no_handles(ws.drop_last());
    }
}

} // verus!
