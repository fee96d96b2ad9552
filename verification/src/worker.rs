//! The decisions of a worker's loop.
//!
//! A native worker thread waits on three channels, in this order of
//! preference: notifications for the tasks pinned to the worker, tasks of the
//! shared queue, and control messages.
//!
//! A web worker waits on one channel of task messages; tasks that returned
//! `Pending` are parked, by id, in a queue shared by all web workers, until a
//! resume message for their id arrives.
use crate::scheduler::{QueueModel, StaticTaskQueue};
use vstd::prelude::*;

verus! {

/// What woke a worker.
#[derive(Debug, PartialEq, Eq, Clone, Copy)]
pub enum WorkerEvent {
    /// A notification for the pinned tasks: the id of a woken task, `0` for
    /// a new task, or nothing when the channel was closed.
    StaticNotification(Option<u64>),
    /// A task arrived on the shared queue.
    Task,
    /// The shared queue was closed.
    TaskChannelClosed,
    /// A shutdown message arrived.
    Shutdown,
    /// The control channel was closed.
    ControlChannelClosed,
}

/// What a worker does next.
#[derive(Debug, PartialEq, Eq, Clone, Copy)]
pub enum WorkerStep {
    /// Poll every ready pinned task, until none is left.
    RunReadyStatic,
    /// Poll the task that arrived.
    RunTask,
    /// Leave the loop: the thread ends.
    Exit,
}

/// The step that an event calls for.
pub open spec fn step_for(event: WorkerEvent) -> WorkerStep {
    match event {
        WorkerEvent::StaticNotification(_) => WorkerStep::RunReadyStatic,
        WorkerEvent::Task => WorkerStep::RunTask,
        _ => WorkerStep::Exit,
    }
}

/// The pinned tasks after an event: a notification for a parked task makes it
/// ready.
pub open spec fn queue_after<T>(queue: QueueModel<T>, event: WorkerEvent) -> QueueModel<T> {
    match event {
        WorkerEvent::StaticNotification(Some(id)) => queue.notify(id),
        _ => queue,
    }
}

/// Handles what woke the worker and says what it does next.
pub fn worker_step<T>(queue: &mut StaticTaskQueue<T>, event: WorkerEvent) -> (step: WorkerStep)
    ensures
        step == step_for(event),
        final(queue)@ == queue_after(old(queue)@, event),
{
    match event {
        WorkerEvent::StaticNotification(notification) => {
            if let Some(id) = notification {
                queue.notify(id);
            }
            WorkerStep::RunReadyStatic
        },
        WorkerEvent::Task => WorkerStep::RunTask,
        WorkerEvent::TaskChannelClosed => WorkerStep::Exit,
        WorkerEvent::Shutdown => WorkerStep::Exit,
        WorkerEvent::ControlChannelClosed => WorkerStep::Exit,
    }
}

/// A worker leaves its loop exactly on a shutdown message or when a channel
/// it takes work from is closed; a closed notification channel still lets it
/// run its ready pinned tasks.
pub proof fn lemma_worker_exits_only_on_shutdown_or_close(event: WorkerEvent)
    ensures
        step_for(event) == WorkerStep::Exit <==> (event == WorkerEvent::Shutdown
            || event == WorkerEvent::TaskChannelClosed
            || event == WorkerEvent::ControlChannelClosed),
{
}

/// Every notification for the pinned tasks, whatever id it carries (the
/// new-task id `0` that each spawn sends included, and a closed channel too),
/// has the worker run its ready pinned tasks; a new-task notification leaves
/// the queue as it is, and a notification for a parked id makes exactly that
/// task ready, at the back.
pub proof fn lemma_every_notification_runs_ready_tasks<T>(
    queue: QueueModel<T>,
    notification: Option<u64>,
    id: u64,
)
    ensures
        step_for(WorkerEvent::StaticNotification(notification)) == WorkerStep::RunReadyStatic,
        queue_after(queue, WorkerEvent::StaticNotification(Some(0u64))) == queue,
        queue_after(queue, WorkerEvent::StaticNotification(None)) == queue,
        id != 0 && queue.pending.contains_key(id) ==> {
            let after = queue_after(queue, WorkerEvent::StaticNotification(Some(id)));
            &&& after.ready.len() == queue.ready.len() + 1
            &&& after.ready.last() == queue.pending[id]
            &&& forall|i: int| 0 <= i < queue.ready.len() ==> after.ready[i] == queue.ready[i]
            &&& !after.pending.contains_key(id)
            &&& forall|k: u64| k != id ==> (after.pending.contains_key(k) == queue.pending.contains_key(k))
            &&& forall|k: u64| k != id && queue.pending.contains_key(k) ==> after.pending[k] == queue.pending[k]
        },
{
}

/// A message to a web worker.
#[derive(Debug)]
pub enum TaskMessage<T> {
    /// A task to poll for the first time.
    NewTask(T),
    /// The task parked under this id was woken.
    ResumeTask(u64),
    /// Ask one web worker to exit its loop.
    Shutdown,
}

/// What a web worker does next.
#[derive(Debug)]
pub enum WebWorkerStep<T> {
    /// Poll the task it carries.
    Poll(T),
    /// Nothing to do: wait for the next message.
    Idle,
    /// Leave the loop: the worker ends.
    Exit,
}

/// The step that a received message calls for, given the parked tasks. A
/// closed channel (no message) and a resume for an id that is not parked, a
/// duplicate resume among them, leave the worker waiting.
pub open spec fn web_step_for<T>(queue: QueueModel<T>, message: Option<TaskMessage<T>>) -> WebWorkerStep<T> {
    match message {
        Some(TaskMessage::NewTask(task)) => WebWorkerStep::Poll(task),
        Some(TaskMessage::ResumeTask(id)) => if queue.pending.contains_key(id) {
            WebWorkerStep::Poll(queue.pending[id])
        } else {
            WebWorkerStep::Idle
        },
        Some(TaskMessage::Shutdown) => WebWorkerStep::Exit,
        None => WebWorkerStep::Idle,
    }
}

/// The parked tasks after a message: a resume takes its task out.
pub open spec fn web_queue_after<T>(queue: QueueModel<T>, message: Option<TaskMessage<T>>) -> QueueModel<T> {
    match message {
        Some(TaskMessage::ResumeTask(id)) => queue.unpark(id),
        _ => queue,
    }
}

/// Handles a message received by a web worker (`None` when the channel is
/// closed) and says what the worker does next.
pub fn web_worker_step<T>(pending: &mut StaticTaskQueue<T>, message: Option<TaskMessage<T>>) -> (step: WebWorkerStep<T>)
    ensures
        step == web_step_for(old(pending)@, message),
        final(pending)@ == web_queue_after(old(pending)@, message),
{
    match message {
        Some(TaskMessage::NewTask(task)) => WebWorkerStep::Poll(task),
        Some(TaskMessage::ResumeTask(id)) => match pending.take_parked(id) {
            Some(task) => WebWorkerStep::Poll(task),
            None => WebWorkerStep::Idle,
        },
        Some(TaskMessage::Shutdown) => WebWorkerStep::Exit,
        None => WebWorkerStep::Idle,
    }
}

/// The message that a web worker sends itself after parking the task `id`:
/// when a wake arrived while the task was being polled, its resume message
/// may have come before the task was parked and found nothing, so the
/// worker resumes the task again; otherwise the waker's own message will.
pub fn resume_after_park<T>(id: u64, woken_during_poll: bool) -> (message: Option<TaskMessage<T>>)
    ensures
        woken_during_poll ==> (message matches Some(TaskMessage::ResumeTask(r)) && r == id),
        !woken_during_poll ==> message is None,
{
    if woken_during_poll {
        Some(TaskMessage::ResumeTask(id))
    } else {
        None
    }
}

/// A web worker leaves its loop exactly on a shutdown message, which is how a
/// pool of web workers shrinks; a task that is resumed is polled once, and a
/// second resume for the same id finds nothing.
pub proof fn lemma_web_worker_exits_only_on_shutdown<T>(
    queue: QueueModel<T>,
    message: Option<TaskMessage<T>>,
    id: u64,
)
    ensures
        web_step_for(queue, message) is Exit <==> message matches Some(TaskMessage::Shutdown),
        queue.pending.contains_key(id) ==> web_step_for(
            web_queue_after(queue, Some(TaskMessage::ResumeTask(id))),
            Some(TaskMessage::ResumeTask(id)),
        ) is Idle,
{
}

/// A resume takes out only the task parked under its own id and polls it:
/// every other parked task stays parked, under its id, and the ready tasks
/// and the id counter are untouched. So two resumes for two different parked
/// ids poll both tasks, each once.
pub proof fn lemma_resume_takes_only_its_task<T>(queue: QueueModel<T>, id: u64, other: u64)
    ensures
        web_queue_after(queue, Some(TaskMessage::ResumeTask(id))).pending == queue.pending.remove(id),
        web_queue_after(queue, Some(TaskMessage::ResumeTask(id))).ready == queue.ready,
        web_queue_after(queue, Some(TaskMessage::ResumeTask(id))).next_id == queue.next_id,
        queue.pending.contains_key(id) ==> web_step_for(queue, Some(TaskMessage::ResumeTask(id)))
            == WebWorkerStep::Poll(queue.pending[id]),
        other != id ==> (web_queue_after(queue, Some(TaskMessage::ResumeTask(id))).pending.contains_key(other)
            == queue.pending.contains_key(other)),
        other != id && queue.pending.contains_key(other) ==> web_step_for(
            web_queue_after(queue, Some(TaskMessage::ResumeTask(id))),
            Some(TaskMessage::ResumeTask(other)),
        ) == WebWorkerStep::Poll(queue.pending[other]),
{
}

/// Messages other than a resume leave the parked tasks alone; a new task is
/// polled as it came.
pub proof fn lemma_other_messages_keep_parked_tasks<T>(queue: QueueModel<T>, task: T)
    ensures
        web_queue_after(queue, Some(TaskMessage::NewTask(task))) == queue,
        web_queue_after(queue, Some(TaskMessage::Shutdown)) == queue,
        web_queue_after(queue, None) == queue,
        web_step_for(queue, Some(TaskMessage::NewTask(task))) == WebWorkerStep::Poll(task),
{
}

} // verus!
