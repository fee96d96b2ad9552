//! Keeping a worker alive while it runs tasks.
//!
//! A worker's runtime may ask it to close as soon as its entry function
//! returns, while tasks it spawned still wait to run. The worker therefore
//! replaces the close function with its own: a close request is remembered,
//! and the original close function runs only once the request was made and
//! no task is running.
use vstd::prelude::*;

verus! {

/// The abstract close bookkeeping of a worker.
pub struct CloseModel<H> {
    /// The number of tasks that run on the worker.
    pub running: nat,
    /// The original close function, once it has been replaced.
    pub handler: Option<H>,
    /// Whether a close was requested.
    pub close_requested: bool,
}

impl<H> CloseModel<H> {
    /// When the original close function must run: a close was requested, no
    /// task runs, and the close function was replaced.
    pub open spec fn ready_to_close(self) -> bool {
        self.close_requested && self.running == 0 && self.handler is Some
    }

    /// The state after a task is spawned.
    pub open spec fn spawned(self) -> Self {
        CloseModel { running: self.running + 1, ..self }
    }

    /// The state after a task finishes.
    pub open spec fn finished(self) -> Self {
        CloseModel { running: (self.running - 1) as nat, ..self }
    }

    /// The state after `n` tasks finish.
    pub open spec fn finished_n(self, n: nat) -> Self
        decreases n,
    {
        if n == 0 {
            self
        } else {
            self.finished().finished_n((n - 1) as nat)
        }
    }

    /// The state after a close request.
    pub open spec fn requested(self) -> Self {
        CloseModel { close_requested: true, ..self }
    }
}

/// The original close function never runs while a task runs or before a
/// close was requested; once both hold and it was replaced, it runs when the
/// last running task finishes, and not before.
pub proof fn lemma_close_waits_for_tasks<H>(m: CloseModel<H>, k: nat)
    requires
        m.close_requested,
        m.handler is Some,
        k <= m.running,
    ensures
        m.finished_n(k).ready_to_close() <==> k == m.running,
    decreases k,
{
    if k > 0 {
        lemma_close_waits_for_tasks(m.finished(), (k - 1) as nat);
    }
}

/// A close request made while no task runs closes at once, and a task that is
/// spawned and finishes leaves the bookkeeping as it was.
pub proof fn lemma_close_request_and_task_round_trip<H>(m: CloseModel<H>)
    ensures
        (m.running == 0 && m.handler is Some) ==> m.requested().ready_to_close(),
        !m.spawned().ready_to_close(),
        m.spawned().finished() == m,
{
}

/// The close bookkeeping of one worker. `H` is the original close function.
#[derive(Debug)]
pub struct CloseInfo<H> {
    running_tasks: usize,
    installed_close_handler: Option<H>,
    close_is_called: bool,
}

impl<H> View for CloseInfo<H> {
    type V = CloseModel<H>;

    closed spec fn view(&self) -> CloseModel<H> {
        CloseModel {
            running: self.running_tasks as nat,
            handler: self.installed_close_handler,
            close_requested: self.close_is_called,
        }
    }
}

impl<H> CloseInfo<H> {
    /// No task runs, no close was requested, nothing replaced.
    pub fn new() -> (info: Self)
        ensures
            info@.running == 0,
            info@.handler is None,
            !info@.close_requested,
    {
        CloseInfo { running_tasks: 0, installed_close_handler: None, close_is_called: false }
    }

    /// The number of tasks that run on this worker.
    pub fn running_tasks(&self) -> (n: usize)
        ensures
            n == self@.running,
    {
        self.running_tasks
    }

    /// Whether the close function was replaced already.
    pub fn is_patched(&self) -> (patched: bool)
        ensures
            patched == self@.handler is Some,
    {
        self.installed_close_handler.is_some()
    }

    /// Records `original` as the close function to run in the end, unless one
    /// was recorded before. Returns whether it was recorded.
    pub fn install_handler(&mut self, original: H) -> (installed: bool)
        ensures
            installed == old(self)@.handler is None,
            final(self)@.handler == (if installed { Some(original) } else { old(self)@.handler }),
            final(self)@.running == old(self)@.running,
            final(self)@.close_requested == old(self)@.close_requested,
    {
        if self.installed_close_handler.is_some() {
            false
        } else {
            self.installed_close_handler = Some(original);
            true
        }
    }

    /// Counts a task spawned on this worker.
    pub fn task_spawned(&mut self)
        requires
            old(self)@.running < usize::MAX,
        ensures
            final(self)@ == old(self)@.spawned(),
    {
        self.running_tasks = self.running_tasks + 1;
    }

    /// Counts a task that finished, and says whether the original close
    /// function must run now.
    pub fn task_finished(&mut self) -> (close_now: bool)
        requires
            old(self)@.running > 0,
        ensures
            final(self)@ == old(self)@.finished(),
            close_now == final(self)@.ready_to_close(),
    {
        self.running_tasks = self.running_tasks - 1;
        self.should_close()
    }

    /// Records a close request, and says whether the original close function
    /// must run now.
    pub fn request_close(&mut self) -> (close_now: bool)
        ensures
            final(self)@ == old(self)@.requested(),
            close_now == final(self)@.ready_to_close(),
    {
        self.close_is_called = true;
        self.should_close()
    }

    /// Whether the original close function must run now.
    pub fn should_close(&self) -> (close_now: bool)
        ensures
            close_now == self@.ready_to_close(),
    {
        self.close_is_called && self.running_tasks == 0 && self.installed_close_handler.is_some()
    }

    /// The original close function, to be called when `should_close` says so.
    pub fn original_close(&self) -> (original: Option<&H>)
        ensures
            original == match self@.handler {
                Some(h) => Some(&h),
                None => None,
            },
    {
        self.installed_close_handler.as_ref()
    }
}

} // verus!
