//! The verified core of a fixed-size worker pool.
//!
//! - [`queue`]: the FIFO of jobs shared by the pool and its workers, with a
//!   close flag that ends the workers' loops once every job is handed out.
//! - [`worker`]: the decision a worker makes on each answer of the queue.
//! - [`pool`]: the pool's bookkeeping: worker ids, the producer handle, and
//!   the thread handles that are taken exactly once at shutdown.
//!
//! Threads, locks and the blocking waits stand outside this crate: they
//! drive these types and carry out the actions they return.

pub mod queue;
pub mod worker;
pub mod pool;
