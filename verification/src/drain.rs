//! The count of running tasks, and the waker of whoever drains the executor.
use atomic_waker::AtomicWaker;
use std::sync::atomic::AtomicUsize;
use std::sync::atomic::Ordering;
use std::task::Waker;
use vstd::prelude::*;

verus! {

/// The waker that a task hands to whatever it waits on.
#[verifier::external_type_specification]
#[verifier::external_body]
pub struct ExWaker(Waker);

/// A slot that holds at most one waker, shared between threads.
#[verifier::external_type_specification]
#[verifier::external_body]
pub struct ExAtomicWaker(AtomicWaker);

/// `AtomicWaker::new`: an empty slot.
pub assume_specification[ AtomicWaker::new ]() -> AtomicWaker;

/// `AtomicWaker::register`: stores a clone of `waker`, to be woken by the
/// next `wake`. Nothing is claimed of what it does.
pub assume_specification[ AtomicWaker::register ](slot: &AtomicWaker, waker: &Waker);

/// `AtomicWaker::wake`: takes the stored waker, if any, and wakes it.
/// Nothing is claimed of what it does.
pub assume_specification[ AtomicWaker::wake ](slot: &AtomicWaker);

/// A drain is complete when no task is running.
pub fn drain_complete(running: usize) -> (done: bool)
    ensures
        done == (running == 0),
{
    running == 0
}

/// A finishing task wakes the drain when the count it took away from was 1:
/// it was the last task.
pub fn finishing_wakes_drain(previous: usize) -> (wake: bool)
    ensures
        wake == (previous == 1),
{
    previous == 1
}

/// What happened when a task finished.
#[derive(Debug, PartialEq, Eq, Clone, Copy)]
pub struct TaskFinish {
    /// The count of running tasks before this one finished.
    pub previous: usize,
    /// Whether this was the last running task (`previous == 1`), the case in
    /// which `task_finished` calls the drain waker. That the call is made is
    /// not covered by the contract, which cannot speak of the waker slot.
    pub woke_drain: bool,
}

/// What a look at the running-task count saw.
#[derive(Debug, PartialEq, Eq, Clone, Copy)]
pub struct DrainCheck {
    /// The count of running tasks at the moment of reading.
    pub running: usize,
    /// Whether that count was zero: the drain is complete.
    pub complete: bool,
}

/// The running-task count of an executor, and the waker of a pending drain.
#[derive(Debug)]
pub struct DrainNotify {
    running_tasks: AtomicUsize,
    waker: AtomicWaker,
}

impl DrainNotify {
    /// No task is running and no drain waits (not covered by a contract: the
    /// content of an atomic cannot be stated).
    pub fn new() -> (d: Self) {
        DrainNotify { running_tasks: AtomicUsize::new(0), waker: AtomicWaker::new() }
    }

    /// Counts one more running task (an increment of the shared count, which
    /// the contract cannot speak of).
    pub fn task_spawned(&self) {
        self.running_tasks.fetch_add(1, Ordering::Relaxed);
    }

    /// Counts one task less, and wakes the drain if it was the last. The
    /// contract covers the decision (`woke_drain` exactly when the count read
    /// was 1); the decrement of the shared count and the wake are not
    /// covered, since the contract cannot speak of an atomic's content.
    pub fn task_finished(&self) -> (finish: TaskFinish)
        ensures
            finish.woke_drain == (finish.previous == 1),
    {
        let previous: usize = self.running_tasks.fetch_sub(1, Ordering::Relaxed);
        let wake = finishing_wakes_drain(previous);
        if wake {
            self.waker.wake();
        }
        TaskFinish { previous, woke_drain: wake }
    }

    /// The count of running tasks at the moment of reading.
    pub fn running_tasks(&self) -> usize {
        self.running_tasks.load(Ordering::Relaxed)
    }

    /// Whether no task was running at the moment of reading.
    pub fn is_drained(&self) -> (check: DrainCheck)
        ensures
            check.complete == (check.running == 0),
    {
        let running: usize = self.running_tasks.load(Ordering::Relaxed);
        DrainCheck { running, complete: drain_complete(running) }
    }

    /// One poll of a drain: registers `waker` first, so that a task that
    /// finishes after the check still wakes it, then reports whether no task
    /// is running. The registration is not covered by the contract.
    pub fn poll_drain(&self, waker: &Waker) -> (check: DrainCheck)
        ensures
            check.complete == (check.running == 0),
    {
        self.waker.register(waker);
        let running: usize = self.running_tasks.load(Ordering::Relaxed);
        DrainCheck { running, complete: drain_complete(running) }
    }
}

} // verus!
