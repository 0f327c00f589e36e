//! The job queue: a first-in first-out buffer with a close flag.
//!
//! The queue keeps, as ghost state, the history of every job it accepted and
//! every job it handed out. Its well-formedness says that the jobs handed out
//! are, in order, the first ones accepted, and that the pending jobs are the
//! rest: each accepted job is delivered once, in submission order.
use std::collections::VecDeque;
use vstd::prelude::*;

verus! {

/// What a receive attempt finds.
pub enum Recv<T> {
    /// The oldest pending job, now removed from the queue.
    Job(T),
    /// Nothing pending yet, but more may come: the receiver should wait.
    Empty,
    /// Nothing pending and nothing more will come.
    Closed,
}

pub struct JobQueue<T> {
    pending: VecDeque<T>,
    closed: bool,
    sent: Ghost<Seq<T>>,
    delivered: Ghost<Seq<T>>,
}

impl<T> JobQueue<T> {
    /// The jobs accepted and not yet handed out, oldest first.
    pub closed spec fn pending(&self) -> Seq<T> {
        self.pending@
    }

    /// Whether the producer side has been closed.
    pub closed spec fn is_closed_spec(&self) -> bool {
        self.closed
    }

    /// Every job ever accepted, in submission order.
    pub closed spec fn sent(&self) -> Seq<T> {
        self.sent@
    }

    /// Every job ever handed out, in delivery order.
    pub closed spec fn delivered(&self) -> Seq<T> {
        self.delivered@
    }

    /// The jobs handed out, followed by the jobs pending, are exactly the
    /// jobs accepted.
    pub open spec fn wf(&self) -> bool {
        self.sent() == self.delivered() + self.pending()
    }

    /// An open, empty queue.
    pub fn new() -> (q: Self)
        ensures
            q.wf(),
            q.pending() == Seq::<T>::empty(),
            q.sent() == Seq::<T>::empty(),
            q.delivered() == Seq::<T>::empty(),
            !q.is_closed_spec(),
    {
        let q = JobQueue {
            pending: VecDeque::new(),
            closed: false,
            sent: Ghost(Seq::empty()),
            delivered: Ghost(Seq::empty()),
        };
        proof {
            assert(q.delivered@ + q.pending@ =~= q.sent@);
        }
        q
    }

    /// Whether the producer side has been closed.
    pub fn is_closed(&self) -> (r: bool)
        ensures
            r == self.is_closed_spec(),
    {
        self.closed
    }

    /// Appends `job` behind the pending jobs. A closed queue accepts nothing:
    /// it hands the job back unchanged and stays as it was.
    pub fn send(&mut self, job: T) -> (r: Result<(), T>)
        requires
            old(self).wf(),
        ensures
            final(self).wf(),
            old(self).is_closed_spec() ==> r == Err::<(), T>(job) && *final(self) == *old(self),
            !old(self).is_closed_spec() ==> {
                &&& r is Ok
                &&& final(self).pending() == old(self).pending().push(job)
                &&& final(self).sent() == old(self).sent().push(job)
                &&& final(self).delivered() == old(self).delivered()
                &&& !final(self).is_closed_spec()
            },
    {
        if self.closed {
            return Err(job);
        }
        proof {
            self.sent@ = self.sent@.push(job);
        }
        self.pending.push_back(job);
        proof {
            assert(self.delivered@ + self.pending@ =~= self.sent@);
        }
        Ok(())
    }

    /// Takes the oldest pending job. With none pending, reports `Closed` if
    /// the queue is closed and `Empty` if it is not; the queue is then left
    /// as it was.
    pub fn recv(&mut self) -> (r: Recv<T>)
        requires
            old(self).wf(),
        ensures
            final(self).wf(),
            final(self).sent() == old(self).sent(),
            final(self).is_closed_spec() == old(self).is_closed_spec(),
            old(self).pending().len() > 0 ==> {
                &&& r == Recv::Job(old(self).pending()[0])
                &&& final(self).pending() == old(self).pending().drop_first()
                &&& final(self).delivered() == old(self).delivered().push(old(self).pending()[0])
            },
            old(self).pending().len() == 0 ==> {
                &&& final(self).pending() == old(self).pending()
                &&& final(self).delivered() == old(self).delivered()
            },
            old(self).pending().len() == 0 && old(self).is_closed_spec() ==> r is Closed,
            old(self).pending().len() == 0 && !old(self).is_closed_spec() ==> r is Empty,
            r is Closed ==> final(self).delivered() == final(self).sent(),
    {
        match self.pending.pop_front() {
            Some(job) => {
                proof {
                    self.delivered@ = self.delivered@.push(job);
                    assert(self.delivered@ + self.pending@ =~= self.sent@);
                }
                Recv::Job(job)
            },
            None => {
                if self.closed {
                    proof {
                        assert(self.delivered@ + self.pending@ =~= self.delivered@);
                    }
                    Recv::Closed
                } else {
                    Recv::Empty
                }
            },
        }
    }

    /// Closes the producer side. Pending jobs stay and are still handed out;
    /// closing a closed queue changes nothing.
    pub fn close(&mut self)
        requires
            old(self).wf(),
        ensures
            final(self).wf(),
            final(self).is_closed_spec(),
            final(self).pending() == old(self).pending(),
            final(self).sent() == old(self).sent(),
            final(self).delivered() == old(self).delivered(),
    {
        self.closed = true;
    }
}

/// Jobs are handed out in the order in which they were submitted, each one
/// once: the jobs delivered so far are the first ones submitted, position by
/// position, and the jobs still pending are exactly the rest.
pub proof fn lemma_delivery_in_submission_order<T>(q: &JobQueue<T>)
    requires
        q.wf(),
    ensures
        q.delivered().len() + q.pending().len() == q.sent().len(),
        forall|i: int| 0 <= i < q.delivered().len() ==> #[trigger] q.delivered()[i] == q.sent()[i],
        forall|i: int|
            0 <= i < q.pending().len() ==> #[trigger] q.pending()[i] == q.sent()[q.delivered().len()
                + i],
{
    assert(q.sent() == q.delivered() + q.pending());
}

} // verus!
