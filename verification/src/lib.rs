//! Building blocks of a thread-pool executor: the wake protocol of a task, the
//! count of running tasks that a drain waits on, the queue of tasks that are
//! pinned to one worker thread, the planning of a pool resize, the state of
//! the executor's message channel and the close bookkeeping of a worker.
pub mod threadpool;
pub mod waker;
pub mod drain;
pub mod scheduler;
pub mod channel;
pub mod close;
pub mod worker;
