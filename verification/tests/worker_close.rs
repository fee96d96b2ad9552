use some_global_executor::close::CloseInfo;

#[test]
fn close_waits_for_running_tasks() {
    let mut info: CloseInfo<&str> = CloseInfo::new();
    assert!(!info.is_patched());
    assert!(info.install_handler("close"));
    assert!(!info.install_handler("other"));
    assert_eq!(info.original_close(), Some(&"close"));
    info.task_spawned();
    info.task_spawned();
    assert_eq!(info.running_tasks(), 2);
    assert!(!info.request_close());
    assert!(!info.task_finished());
    assert!(info.task_finished());
    assert!(info.should_close());
}

#[test]
fn no_close_without_a_request() {
    let mut info: CloseInfo<&str> = CloseInfo::new();
    info.install_handler("close");
    info.task_spawned();
    assert!(!info.task_finished());
    assert!(!info.should_close());
    assert!(info.request_close());
}

#[test]
fn no_close_before_the_close_function_is_replaced() {
    let mut info: CloseInfo<&str> = CloseInfo::new();
    assert!(!info.request_close());
    assert!(info.install_handler("close"));
    assert!(info.should_close());
}

#[test]
fn a_task_that_comes_and_goes_leaves_the_bookkeeping_as_it_was() {
    let mut info: CloseInfo<&str> = CloseInfo::new();
    info.install_handler("close");
    assert!(info.request_close());
    info.task_spawned();
    assert!(!info.should_close());
    assert!(info.task_finished());
    assert!(info.should_close());
}
