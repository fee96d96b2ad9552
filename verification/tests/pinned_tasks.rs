use some_global_executor::scheduler::{StaticTaskQueue, NEW_TASK_ID};

#[test]
fn ids_start_at_one() {
    let mut q: StaticTaskQueue<&str> = StaticTaskQueue::new();
    assert_eq!(q.allocate_id(), 1);
    assert_eq!(q.allocate_id(), 2);
    assert_eq!(q.allocate_id(), 3);
}

#[test]
fn ready_tasks_run_first_in_first_out() {
    let mut q = StaticTaskQueue::new();
    q.push_ready("a");
    q.push_ready("b");
    assert_eq!(q.ready_len(), 2);
    assert_eq!(q.pop_ready(), Some("a"));
    assert_eq!(q.pop_ready(), Some("b"));
    assert_eq!(q.pop_ready(), None);
}

#[test]
fn a_notification_makes_a_parked_task_ready() {
    let mut q = StaticTaskQueue::new();
    q.push_ready("first");
    assert_eq!(q.park(7, "parked"), None);
    assert_eq!(q.pending_len(), 1);
    assert!(q.notify(7));
    assert_eq!(q.pending_len(), 0);
    assert_eq!(q.pop_ready(), Some("first"));
    assert_eq!(q.pop_ready(), Some("parked"));
}

#[test]
fn unknown_or_new_task_notifications_change_nothing() {
    let mut q = StaticTaskQueue::new();
    q.park(NEW_TASK_ID, "zero");
    assert!(!q.notify(NEW_TASK_ID));
    assert!(!q.notify(3));
    assert_eq!(q.pending_len(), 1);
    assert_eq!(q.ready_len(), 0);
}

#[test]
fn parking_twice_under_one_id_hands_back_the_first() {
    let mut q = StaticTaskQueue::new();
    assert_eq!(q.park(4, "old"), None);
    assert_eq!(q.park(4, "new"), Some("old"));
    assert_eq!(q.take_parked(4), Some("new"));
    assert_eq!(q.take_parked(4), None);
}
