//! Sizing of the worker pool.
use vstd::prelude::*;

verus! {

/// A message to a worker thread.
#[derive(Debug, PartialEq, Eq, Clone, Copy)]
pub enum ThreadMessage {
    /// Ask one worker to exit its loop.
    Shutdown,
}

/// What a resize must do to go from the current number of workers to the
/// requested one.
#[derive(Debug, PartialEq, Eq, Clone, Copy)]
pub enum ResizePlan {
    /// The pool already has the requested size.
    Unchanged,
    /// Start workers with the indices `first..end`.
    Spawn { first: usize, end: usize },
    /// Send `count` shutdown messages.
    Shutdown { count: usize },
}

/// The plan that takes a pool of `current` workers to `target` workers.
pub open spec fn resize_plan(current: usize, target: usize) -> ResizePlan {
    if target > current {
        ResizePlan::Spawn { first: current, end: target }
    } else if target < current {
        ResizePlan::Shutdown { count: (current - target) as usize }
    } else {
        ResizePlan::Unchanged
    }
}

/// How many workers a plan adds (negative: removes).
pub open spec fn plan_delta(plan: ResizePlan) -> int {
    match plan {
        ResizePlan::Unchanged => 0,
        ResizePlan::Spawn { first, end } => end - first,
        ResizePlan::Shutdown { count } => -count,
    }
}

/// Computes the plan that takes a pool of `current` workers to `target`.
pub fn plan_resize(current: usize, target: usize) -> (plan: ResizePlan)
    ensures
        plan == resize_plan(current, target),
{
    if target > current {
        ResizePlan::Spawn { first: current, end: target }
    } else if target < current {
        ResizePlan::Shutdown { count: current - target }
    } else {
        ResizePlan::Unchanged
    }
}

/// A resize brings the pool to exactly the requested size: the workers it
/// starts get the next free indices, `current..target`, and it shuts down
/// exactly the surplus.
pub proof fn lemma_resize_reaches_target(current: usize, target: usize)
    ensures
        current + plan_delta(resize_plan(current, target)) == target,
        resize_plan(current, target) matches ResizePlan::Spawn { first, end } ==> first == current
            && end == target && first < end,
        resize_plan(current, target) matches ResizePlan::Shutdown { count } ==> 0 < count && count
            == current - target,
{
}

/// Asking for the size the pool already has does nothing, and resizing to a
/// size and back undoes the first resize.
pub proof fn lemma_resize_round_trip(a: usize, b: usize)
    ensures
        resize_plan(a, a) == ResizePlan::Unchanged,
        plan_delta(resize_plan(a, b)) + plan_delta(resize_plan(b, a)) == 0,
{
}

/// The number of workers that a pool has been asked to run.
#[derive(Debug)]
pub struct PoolSize {
    requested: usize,
}

impl PoolSize {
    /// The requested number of workers.
    pub closed spec fn spec_requested(&self) -> usize {
        self.requested
    }

    /// A pool that starts `threads` workers, with the indices `0..threads`.
    pub fn new(threads: usize) -> (pool: Self)
        ensures
            pool.spec_requested() == threads,
    {
        PoolSize { requested: threads }
    }

    /// The requested number of workers.
    pub fn requested(&self) -> (n: usize)
        ensures
            n == self.spec_requested(),
    {
        self.requested
    }

    /// Records that the pool must now run `threads` workers and returns what
    /// must be done for it.
    pub fn resize(&mut self, threads: usize) -> (plan: ResizePlan)
        ensures
            plan == resize_plan(old(self).spec_requested(), threads),
            final(self).spec_requested() == threads,
    {
        let plan = plan_resize(self.requested, threads);
        self.requested = threads;
        plan
    }
}

/// The default number of workers: `num_cpus::get()`, the number of logical
/// cores that this process may use. Its documentation promises at least 1;
/// the number itself depends on the machine and is left open.
#[verifier::external_body]
pub fn default_threadpool_size() -> (n: usize)
    ensures
        n >= 1,
{
    num_cpus::get()
}

} // verus!
