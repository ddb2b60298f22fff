use extern_executor::dart::DartDriver;
use extern_executor::driver::ExternTasks;
use extern_executor::task::{task_wrap, PollState, TaskTable};
use extern_executor::uv::{task_poll, task_run, UvPollAction};

#[test]
fn extern_tasks_track_their_task() {
    let mut tasks = ExternTasks::new();
    tasks.task_new(0x1000);
    assert!(tasks.contains(0x1000));
    assert_eq!(tasks.task_data(0x1000), Some(0));
    tasks.task_run(0x1000, 3);
    assert_eq!(tasks.task_data(0x1000), Some(3));
    assert_eq!(tasks.task_drop(0x1000), Some(3));
    assert!(!tasks.contains(0x1000));
    assert_eq!(tasks.task_drop(0x1000), None);
}

#[test]
fn uv_handle_closes_when_task_is_ready() {
    let mut handles = ExternTasks::new();
    handles.task_new(0x2000);
    assert_eq!(task_run(&mut handles, 0x2000, 4), 0x2000);
    assert!(matches!(task_poll(&mut handles, 0x2000, true), UvPollAction::Wait));
    assert_eq!(handles.task_data(0x2000), Some(4));
    assert!(matches!(task_poll(&mut handles, 0x2000, false), UvPollAction::Finish { task: 4 }));
    assert!(!handles.contains(0x2000));
}

#[test]
fn dart_wake_posts_task_address() {
    let mut driver = DartDriver::new();
    assert!(!driver.is_initialized());
    driver.loop_init(77, 0xdead);
    assert!(driver.is_initialized());
    driver.task_new(0x3000);
    assert_eq!(driver.task_poll(0x3000), Some(0));
    let msg = driver.task_run(0x3000, 5);
    assert_eq!(msg.post, 0xdead);
    assert_eq!(msg.port, 77);
    assert_eq!(msg.kind, 3);
    assert_eq!(msg.value, 0x3000);
    let again = driver.task_wake(0x3000);
    assert_eq!((again.post, again.port, again.kind, again.value), (0xdead, 77, 3, 0x3000));
    assert_eq!(driver.task_poll(0x3000), Some(5));
    assert_eq!(driver.task_drop(0x3000), Some(5));
    assert_eq!(driver.task_poll(0x3000), None);
}

#[test]
fn unknown_extern_task_has_no_data() {
    let tasks = ExternTasks::new();
    assert_eq!(tasks.task_data(0x10), None);
    let driver = DartDriver::new();
    assert!(!driver.is_initialized());
    assert_eq!(driver.task_poll(0x10), None);
}

#[test]
fn spawned_task_and_handle_point_at_each_other() {
    let mut handles = ExternTasks::new();
    let mut tasks: TaskTable<&str> = TaskTable::new();
    handles.task_new(0x4000);
    let h = task_wrap(&mut tasks, "job", 0x4000);
    assert_eq!(task_run(&mut handles, 0x4000, h), 0x4000);
    assert_eq!(handles.task_data(0x4000), Some(h));
    let (fut, data) = match tasks.poll_begin(h) {
        Ok(taken) => taken,
        Err(_) => panic!("a spawned task gives its future"),
    };
    assert_eq!(data, 0x4000);
    let pending = tasks.poll_end(h, fut, PollState::Ready);
    match task_poll(&mut handles, 0x4000, pending) {
        UvPollAction::Finish { task } => {
            assert_eq!(task, h);
            assert!(tasks.drop_task(task).is_some());
        },
        UvPollAction::Wait => panic!("a ready task finishes its handle"),
    }
    assert!(!handles.contains(0x4000));
    assert!(!tasks.contains(h));
}
