use some_global_executor::drain::{drain_complete, finishing_wakes_drain, DrainCheck, DrainNotify, TaskFinish};
use std::sync::atomic::{AtomicUsize, Ordering};
use std::sync::Arc;
use std::task::{Wake, Waker};

struct CountingWaker(AtomicUsize);

impl Wake for CountingWaker {
    fn wake(self: Arc<Self>) {
        self.0.fetch_add(1, Ordering::SeqCst);
    }
}

#[test]
fn drain_is_complete_only_without_running_tasks() {
    assert!(drain_complete(0));
    assert!(!drain_complete(1));
    assert!(!drain_complete(17));
}

#[test]
fn only_the_last_task_wakes_the_drain() {
    assert!(finishing_wakes_drain(1));
    assert!(!finishing_wakes_drain(2));
    assert!(!finishing_wakes_drain(0));
}

#[test]
fn counting_tasks() {
    let d = DrainNotify::new();
    assert_eq!(d.is_drained(), DrainCheck { running: 0, complete: true });
    d.task_spawned();
    d.task_spawned();
    assert_eq!(d.running_tasks(), 2);
    assert_eq!(d.is_drained(), DrainCheck { running: 2, complete: false });
    assert_eq!(d.task_finished(), TaskFinish { previous: 2, woke_drain: false });
    assert_eq!(d.task_finished(), TaskFinish { previous: 1, woke_drain: true });
    assert!(d.is_drained().complete);
}

#[test]
fn a_pending_drain_is_woken_by_the_last_task() {
    let flag = Arc::new(CountingWaker(AtomicUsize::new(0)));
    let waker = Waker::from(flag.clone());
    let d = DrainNotify::new();
    d.task_spawned();
    assert!(!d.poll_drain(&waker).complete);
    assert_eq!(flag.0.load(Ordering::SeqCst), 0);
    d.task_finished();
    assert_eq!(flag.0.load(Ordering::SeqCst), 1);
    assert!(d.poll_drain(&waker).complete);
}
