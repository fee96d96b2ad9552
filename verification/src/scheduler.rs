//! The tasks that are pinned to one worker thread: a queue of tasks ready to
//! be polled, the tasks that wait for a wake, keyed by their id, and the
//! counter that hands out ids.
//!
//! A notification carries the id of a woken task, or `0` for "a new task was
//! queued", which is why ids start at 1.
use std::collections::HashMap;
use std::collections::VecDeque;
use vstd::prelude::*;

verus! {

broadcast use vstd::std_specs::hash::group_hash_axioms;

/// The id that a notification carries when a new task was queued rather than
/// a parked one woken.
pub const NEW_TASK_ID: u64 = 0u64;

/// The abstract state of a queue.
#[verifier::ext_equal]
pub struct QueueModel<T> {
    /// The tasks ready to be polled, first to run first.
    pub ready: Seq<T>,
    /// The tasks that wait for a wake, by id.
    pub pending: Map<u64, T>,
    /// The id that the next task gets.
    pub next_id: u64,
}

impl<T> QueueModel<T> {
    /// The state of a fresh queue: nothing queued, ids start at 1.
    pub open spec fn empty() -> Self {
        QueueModel { ready: Seq::empty(), pending: Map::empty(), next_id: 1 }
    }

    /// The counter after handing out an id: one more, wrapping at the top.
    pub open spec fn advance_id(self) -> Self {
        QueueModel {
            next_id: if self.next_id == u64::MAX { 0u64 } else { (self.next_id + 1) as u64 },
            ..self
        }
    }

    /// `task` queued behind the ready tasks.
    pub open spec fn push_ready(self, task: T) -> Self {
        QueueModel { ready: self.ready.push(task), ..self }
    }

    /// `task` parked under `id`, in place of any task parked there before.
    pub open spec fn park(self, id: u64, task: T) -> Self {
        QueueModel { pending: self.pending.insert(id, task), ..self }
    }

    /// Whether a notification for `id` finds a parked task.
    pub open spec fn wakes(self, id: u64) -> bool {
        id != NEW_TASK_ID && self.pending.contains_key(id)
    }

    /// The state after a notification for `id`: a task parked under a
    /// nonzero `id` moves to the back of the ready queue; otherwise nothing
    /// changes.
    pub open spec fn notify(self, id: u64) -> Self {
        if self.wakes(id) {
            QueueModel {
                ready: self.ready.push(self.pending[id]),
                pending: self.pending.remove(id),
                ..self
            }
        } else {
            self
        }
    }

    /// The state after taking the task parked under `id` out, if any.
    pub open spec fn unpark(self, id: u64) -> Self {
        QueueModel { pending: self.pending.remove(id), ..self }
    }

    /// The state after taking the first ready task, if any.
    pub open spec fn pop(self) -> Self {
        if self.ready.len() > 0 {
            QueueModel { ready: self.ready.drop_first(), ..self }
        } else {
            self
        }
    }

    /// The task that taking the first ready task gives.
    pub open spec fn first_ready(self) -> Option<T> {
        if self.ready.len() > 0 {
            Some(self.ready[0])
        } else {
            None
        }
    }
}

/// A task parked under a nonzero id and then notified is the last ready task,
/// and no longer parked.
pub proof fn lemma_park_then_notify<T>(q: QueueModel<T>, id: u64, task: T)
    requires
        id != NEW_TASK_ID,
    ensures
        q.park(id, task).wakes(id),
        q.park(id, task).notify(id).ready == q.ready.push(task),
        q.park(id, task).notify(id).pending == q.pending.remove(id),
{
    assert(q.park(id, task).pending.remove(id) =~= q.pending.remove(id));
}

/// Queuing a ready task appends it, whatever the queue holds: one more ready
/// task, the new one last, the earlier ones unchanged and in order, nothing
/// else touched. With tasks already queued, the first one still comes first
/// and queuing commutes with taking it; on an empty queue the new task comes
/// first.
pub proof fn lemma_push_ready_appends<T>(q: QueueModel<T>, task: T)
    ensures
        q.push_ready(task).ready.len() == q.ready.len() + 1,
        q.push_ready(task).ready.last() == task,
        forall|i: int| 0 <= i < q.ready.len() ==> q.push_ready(task).ready[i] == q.ready[i],
        q.push_ready(task).pending == q.pending,
        q.push_ready(task).next_id == q.next_id,
        q.ready.len() > 0 ==> q.push_ready(task).first_ready() == q.first_ready(),
        q.ready.len() > 0 ==> q.push_ready(task).pop() == q.pop().push_ready(task),
        q.ready.len() == 0 ==> q.push_ready(task).first_ready() == Some(task),
{
    if q.ready.len() > 0 {
        assert(q.push_ready(task).pop().ready =~= q.pop().push_ready(task).ready);
    }
}

/// A notification that carries the new-task id, or the id of no parked task,
/// changes nothing.
pub proof fn lemma_notify_unknown_is_noop<T>(q: QueueModel<T>, id: u64)
    requires
        id == NEW_TASK_ID || !q.pending.contains_key(id),
    ensures
        q.notify(id) == q,
{
}

/// A notification moves a task, it never loses or copies one: the number of
/// ready and parked tasks together stays the same.
pub proof fn lemma_notify_keeps_tasks<T>(q: QueueModel<T>, id: u64)
    requires
        q.pending.dom().finite(),
    ensures
        q.notify(id).ready.len() + q.notify(id).pending.len() == q.ready.len() + q.pending.len(),
{
}

/// Ready tasks run in the order they were queued.
pub proof fn lemma_ready_fifo<T>(a: T, b: T)
    ensures
        ({
            let q = QueueModel::<T>::empty().push_ready(a).push_ready(b);
            &&& q.first_ready() == Some(a)
            &&& q.pop().first_ready() == Some(b)
            &&& q.pop().pop().first_ready() is None
        }),
{
    let q = QueueModel::<T>::empty().push_ready(a).push_ready(b);
    assert(q.ready =~= seq![a, b]);
    assert(q.pop().ready =~= seq![b]);
    assert(q.pop().pop().ready =~= Seq::<T>::empty());
}

/// A fresh queue hands out 1, then 2: ids never equal the new-task id until
/// the counter wraps, and consecutive ids differ.
pub proof fn lemma_ids_start_at_one<T>(q: QueueModel<T>)
    requires
        q.next_id != u64::MAX,
    ensures
        QueueModel::<T>::empty().next_id == 1,
        QueueModel::<T>::empty().advance_id().next_id == 2,
        q.advance_id().next_id == q.next_id + 1,
        q.advance_id().next_id != q.next_id,
{
}

/// The tasks pinned to one worker thread.
#[derive(Debug)]
pub struct StaticTaskQueue<T> {
    ready: VecDeque<T>,
    pending: HashMap<u64, T>,
    next_id: u64,
}

impl<T> View for StaticTaskQueue<T> {
    type V = QueueModel<T>;

    closed spec fn view(&self) -> QueueModel<T> {
        QueueModel { ready: self.ready@, pending: self.pending@, next_id: self.next_id }
    }
}

impl<T> StaticTaskQueue<T> {
    /// An empty queue whose first id is 1.
    pub fn new() -> (q: Self)
        ensures
            q@ == QueueModel::<T>::empty(),
    {
        let q = StaticTaskQueue { ready: VecDeque::new(), pending: HashMap::new(), next_id: 1 };
        assert(q@ =~= QueueModel::<T>::empty());
        q
    }

    /// Hands out the next id and advances the counter, wrapping at the top.
    pub fn allocate_id(&mut self) -> (id: u64)
        ensures
            id == old(self)@.next_id,
            final(self)@ == old(self)@.advance_id(),
    {
        let id: u64 = self.next_id;
        if self.next_id == u64::MAX {
            self.next_id = 0;
        } else {
            self.next_id = self.next_id + 1;
        }
        assert(self@ =~= old(self)@.advance_id());
        id
    }

    /// Queues `task` behind the ready tasks.
    pub fn push_ready(&mut self, task: T)
        ensures
            final(self)@ == old(self)@.push_ready(task),
    {
        self.ready.push_back(task);
        assert(self@ =~= old(self)@.push_ready(task));
    }

    /// Parks `task` under `id` until a notification for `id`. A task that was
    /// parked under the same id before is handed back.
    pub fn park(&mut self, id: u64, task: T) -> (replaced: Option<T>)
        ensures
            final(self)@ == old(self)@.park(id, task),
            replaced == (if old(self)@.pending.contains_key(id) {
                Some(old(self)@.pending[id])
            } else {
                None
            }),
    {
        let replaced = self.pending.insert(id, task);
        assert(self@ =~= old(self)@.park(id, task));
        replaced
    }

    /// Handles a notification for `id`: a task parked under a nonzero `id`
    /// moves to the back of the ready queue. Returns whether one did.
    pub fn notify(&mut self, id: u64) -> (woke: bool)
        ensures
            woke == old(self)@.wakes(id),
            final(self)@ == old(self)@.notify(id),
    {
        if id == NEW_TASK_ID {
            return false;
        }
        match self.pending.remove(&id) {
            Some(task) => {
                self.ready.push_back(task);
                assert(self@ =~= old(self)@.notify(id));
                true
            },
            None => {
                assert(self@ =~= old(self)@);
                false
            },
        }
    }

    /// Takes the task parked under `id` out, whatever the id, to be polled
    /// at once.
    pub fn take_parked(&mut self, id: u64) -> (task: Option<T>)
        ensures
            task == (if old(self)@.pending.contains_key(id) {
                Some(old(self)@.pending[id])
            } else {
                None
            }),
            final(self)@ == old(self)@.unpark(id),
    {
        let task = self.pending.remove(&id);
        assert(self@ =~= old(self)@.unpark(id));
        task
    }

    /// Takes the first ready task.
    pub fn pop_ready(&mut self) -> (task: Option<T>)
        ensures
            task == old(self)@.first_ready(),
            final(self)@ == old(self)@.pop(),
    {
        let task = self.ready.pop_front();
        assert(self@ =~= old(self)@.pop());
        task
    }

    /// The number of tasks ready to be polled.
    pub fn ready_len(&self) -> (n: usize)
        ensures
            n == self@.ready.len(),
    {
        self.ready.len()
    }

    /// The number of parked tasks.
    pub fn pending_len(&self) -> (n: usize)
        ensures
            n == self@.pending.len(),
    {
        self.pending.len()
    }
}

} // verus!
