use extern_executor::task::{
    task_new_raw, task_wrap, PollError, PollState, Task, TaskState, TaskTable,
};

#[test]
fn spawn_gives_fresh_handles() {
    let mut tasks: TaskTable<&str> = TaskTable::new();
    assert!(tasks.can_spawn());
    let a = task_wrap(&mut tasks, "a", 100);
    let b = task_new_raw(&mut tasks, "b", 200);
    assert_eq!(a, 1);
    assert_eq!(b, 2);
    assert!(tasks.contains(a));
    assert!(tasks.contains(b));
    assert!(!tasks.contains(3));
    assert!(matches!(tasks.poll_begin(a), Ok(("a", 100))));
    assert!(matches!(tasks.poll_begin(b), Ok(("b", 200))));
    assert!(matches!(tasks.poll_begin(0), Err(PollError::UnknownTask)));
}

#[test]
fn pending_poll_keeps_task() {
    let mut tasks: TaskTable<&str> = TaskTable::new();
    let h = task_wrap(&mut tasks, "fut", 7);
    let (fut, data) = match tasks.poll_begin(h) {
        Ok(taken) => taken,
        Err(_) => panic!("an idle task gives its future"),
    };
    assert_eq!(fut, "fut");
    assert_eq!(data, 7);
    assert!(matches!(tasks.poll_begin(h), Err(PollError::Busy)));
    assert!(tasks.poll_end(h, fut, PollState::Pending));
    assert!(matches!(tasks.poll_begin(h), Ok(("fut", 7))));
}

#[test]
fn ready_poll_completes_task() {
    let mut tasks: TaskTable<u32> = TaskTable::new();
    let h = task_wrap(&mut tasks, 5, 9);
    let (fut, data) = match tasks.poll_begin(h) {
        Ok(taken) => taken,
        Err(_) => panic!("an idle task gives its future"),
    };
    assert_eq!(data, 9);
    assert!(!tasks.poll_end(h, fut, PollState::Ready));
    assert!(matches!(tasks.poll_begin(h), Err(PollError::Completed)));
    let dropped = tasks.drop_task(h);
    assert!(matches!(dropped, Some(ref t) if t.data == 9 && matches!(t.state, TaskState::Complete)));
    assert!(matches!(tasks.poll_begin(h), Err(PollError::UnknownTask)));
    assert!(tasks.drop_task(h).is_none());
}

#[test]
fn handles_are_not_reused_after_drop() {
    let mut tasks: TaskTable<u8> = TaskTable::new();
    let a = task_wrap(&mut tasks, 1, 10);
    assert!(tasks.drop_task(a).is_some());
    let b = task_wrap(&mut tasks, 2, 20);
    assert_ne!(a, b);
    assert!(matches!(tasks.poll_begin(a), Err(PollError::UnknownTask)));
    assert!(matches!(tasks.poll_begin(b), Ok((2, 20))));
}

#[test]
fn unknown_handle_is_refused() {
    let mut tasks: TaskTable<u8> = TaskTable::new();
    assert!(matches!(tasks.poll_begin(42), Err(PollError::UnknownTask)));
}

#[test]
fn task_lock_and_poll() {
    let mut task = Task::new(11u32, 0x500);
    assert_eq!(task.data(), 0x500);
    let (fut, data) = match task.lock() {
        Ok(taken) => taken,
        Err(_) => panic!("an idle task gives its future"),
    };
    assert_eq!(fut, 11);
    assert_eq!(data, 0x500);
    assert!(matches!(task.lock(), Err(PollError::Busy)));
    assert!(task.poll(fut, PollState::Pending));
    assert!(matches!(task.state, TaskState::Idle(11)));
    let (fut, _) = match task.lock() {
        Ok(taken) => taken,
        Err(_) => panic!("a pending task gives its future back"),
    };
    assert!(!task.poll(fut, PollState::Ready));
    assert!(matches!(task.state, TaskState::Complete));
    assert!(matches!(task.lock(), Err(PollError::Completed)));
    assert_eq!(task.data(), 0x500);
}

#[test]
fn poll_end_after_drop_reports_the_poll() {
    let mut tasks: TaskTable<u8> = TaskTable::new();
    let h = task_wrap(&mut tasks, 3, 30);
    let (fut, _) = match tasks.poll_begin(h) {
        Ok(taken) => taken,
        Err(_) => panic!("an idle task gives its future"),
    };
    assert!(tasks.drop_task(h).is_some());
    assert!(tasks.poll_end(h, fut, PollState::Pending));
    assert!(!tasks.contains(h));
    assert!(!tasks.poll_end(h, 3, PollState::Ready));
    assert!(!tasks.contains(h));
}

#[test]
fn polls_until_ready() {
    let mut tasks: TaskTable<u8> = TaskTable::new();
    let h = task_wrap(&mut tasks, 0, 5);
    let outcomes = [PollState::Pending, PollState::Pending, PollState::Ready];
    let mut results = Vec::new();
    for outcome in outcomes {
        let (fut, data) = match tasks.poll_begin(h) {
            Ok(taken) => taken,
            Err(_) => panic!("a pending task is polled again"),
        };
        assert_eq!(data, 5);
        results.push(tasks.poll_end(h, fut + 1, outcome));
    }
    assert_eq!(results, vec![true, true, false]);
    assert!(matches!(tasks.poll_begin(h), Err(PollError::Completed)));
}
