use some_global_executor::threadpool::{
    default_threadpool_size, plan_resize, PoolSize, ResizePlan, ThreadMessage,
};
use some_global_executor::scheduler::StaticTaskQueue;
use some_global_executor::worker::{worker_step, WorkerEvent, WorkerStep};

#[test]
fn growing_starts_workers_with_fresh_indices() {
    assert_eq!(plan_resize(2, 8), ResizePlan::Spawn { first: 2, end: 8 });
}

#[test]
fn shrinking_sends_one_shutdown_per_surplus_worker() {
    assert_eq!(plan_resize(8, 4), ResizePlan::Shutdown { count: 4 });
    assert_eq!(ThreadMessage::Shutdown, ThreadMessage::Shutdown);
}

#[test]
fn same_size_is_unchanged() {
    assert_eq!(plan_resize(4, 4), ResizePlan::Unchanged);
}

#[test]
fn resize_plans_from_the_last_requested_size() {
    let mut pool = PoolSize::new(2);
    assert_eq!(pool.resize(8), ResizePlan::Spawn { first: 2, end: 8 });
    assert_eq!(pool.requested(), 8);
    assert_eq!(pool.resize(4), ResizePlan::Shutdown { count: 4 });
    assert_eq!(pool.resize(4), ResizePlan::Unchanged);
    assert_eq!(pool.requested(), 4);
}

#[test]
fn default_size_is_at_least_one() {
    assert!(default_threadpool_size() >= 1);
}

#[test]
fn worker_steps() {
    let mut q = StaticTaskQueue::new();
    q.park(3, "t");
    assert_eq!(worker_step(&mut q, WorkerEvent::StaticNotification(Some(3))), WorkerStep::RunReadyStatic);
    assert_eq!(q.pop_ready(), Some("t"));
    assert_eq!(worker_step(&mut q, WorkerEvent::StaticNotification(None)), WorkerStep::RunReadyStatic);
    assert_eq!(worker_step(&mut q, WorkerEvent::Task), WorkerStep::RunTask);
    assert_eq!(worker_step(&mut q, WorkerEvent::Shutdown), WorkerStep::Exit);
    assert_eq!(worker_step(&mut q, WorkerEvent::TaskChannelClosed), WorkerStep::Exit);
    assert_eq!(worker_step(&mut q, WorkerEvent::ControlChannelClosed), WorkerStep::Exit);
}

#[test]
fn resizing_there_and_back_cancels_out() {
    let mut pool = PoolSize::new(3);
    assert_eq!(pool.resize(5), ResizePlan::Spawn { first: 3, end: 5 });
    assert_eq!(pool.resize(3), ResizePlan::Shutdown { count: 2 });
    assert_eq!(pool.requested(), 3);
}
