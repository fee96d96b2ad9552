use some_global_executor::scheduler::StaticTaskQueue;
use some_global_executor::worker::{resume_after_park, web_worker_step, TaskMessage, WebWorkerStep};

fn polled(step: WebWorkerStep<&'static str>) -> Option<&'static str> {
    match step {
        WebWorkerStep::Poll(task) => Some(task),
        _ => None,
    }
}

#[test]
fn a_new_task_is_polled() {
    let mut q: StaticTaskQueue<&str> = StaticTaskQueue::new();
    assert_eq!(polled(web_worker_step(&mut q, Some(TaskMessage::NewTask("t")))), Some("t"));
}

#[test]
fn a_resume_polls_the_parked_task_once() {
    let mut q = StaticTaskQueue::new();
    q.park(9, "parked");
    assert_eq!(polled(web_worker_step(&mut q, Some(TaskMessage::ResumeTask(9)))), Some("parked"));
    assert_eq!(q.pending_len(), 0);
    assert!(matches!(web_worker_step(&mut q, Some(TaskMessage::ResumeTask(9))), WebWorkerStep::Idle));
}

#[test]
fn shutdown_exits_and_a_closed_channel_waits() {
    let mut q: StaticTaskQueue<&str> = StaticTaskQueue::new();
    assert!(matches!(web_worker_step(&mut q, Some(TaskMessage::Shutdown)), WebWorkerStep::Exit));
    assert!(matches!(web_worker_step(&mut q, None), WebWorkerStep::Idle));
}

#[test]
fn a_wake_during_the_poll_resends_the_resume() {
    assert!(matches!(resume_after_park::<&str>(4, true), Some(TaskMessage::ResumeTask(4))));
    assert!(resume_after_park::<&str>(4, false).is_none());
}
