use gpui_ios::dispatcher::{
    IosDispatcher, Priority, QueuePriority, TaskLocation, TaskTiming, ThreadTaskTimings,
    ThreadTimings,
};
use std::collections::VecDeque;

const A: TaskLocation = TaskLocation { file: "a.rs", line: 1, column: 2 };
const B: TaskLocation = TaskLocation { file: "b.rs", line: 1, column: 2 };

fn record() -> ThreadTimings<u64> {
    ThreadTimings { thread_name: Some("worker".to_owned()), timings: VecDeque::new(), total_pushed: 4 }
}

#[test]
fn priorities_have_their_queues() {
    let dispatcher = IosDispatcher::new();
    assert_eq!(dispatcher.dispatch(Priority::High), QueuePriority::High);
    assert_eq!(dispatcher.dispatch(Priority::Medium), QueuePriority::Default);
    assert_eq!(dispatcher.dispatch(Priority::Low), QueuePriority::Low);
}

#[test]
fn delays_are_in_nanoseconds() {
    let dispatcher = IosDispatcher::new();
    assert_eq!(dispatcher.dispatch_after(0, 0), (QueuePriority::High, 0));
    assert_eq!(dispatcher.dispatch_after(1, 5), (QueuePriority::High, 1_000_000_005));
    assert_eq!(dispatcher.dispatch_after(9_223_372_036, 854_775_807).1, i64::MAX);
}

#[test]
fn delays_wrap_around() {
    let dispatcher = IosDispatcher::new();
    assert_eq!(dispatcher.dispatch_after(9_223_372_036, 854_775_808).1, i64::MIN);
    let longest = (u64::MAX as u128) * 1_000_000_000 + 999_999_999;
    assert_eq!(dispatcher.dispatch_after(u64::MAX, 999_999_999).1, longest as i64);
}

#[test]
fn locations_are_compared_by_value() {
    assert!(A.is_same(&TaskLocation { file: "a.rs", line: 1, column: 2 }));
    assert!(!A.is_same(&B));
    assert!(!A.is_same(&TaskLocation { line: 2, ..A }));
    assert!(!A.is_same(&TaskLocation { column: 1, ..A }));
    assert!(!A.is_same(&TaskLocation { file: "a.rsx", ..A }));
}

#[test]
fn finished_task_has_start_and_end() {
    let mut timings = record();
    timings.task_started(A, 10);
    assert_eq!(timings.timings, vec![TaskTiming { location: A, start: 10, end: None }]);
    timings.task_ended(12);
    assert_eq!(timings.timings, vec![TaskTiming { location: A, start: 10, end: Some(12) }]);
    assert_eq!(timings.total_pushed, 4);
}

#[test]
fn repeated_task_extends_its_entry() {
    let mut timings = record();
    timings.task_started(A, 10);
    timings.task_ended(12);
    timings.task_started(A, 20);
    timings.task_ended(25);
    assert_eq!(timings.timings, vec![TaskTiming { location: A, start: 10, end: Some(25) }]);
}

#[test]
fn other_tasks_get_entries_of_their_own() {
    let mut timings = record();
    timings.task_started(A, 1);
    timings.task_ended(2);
    timings.task_started(B, 3);
    timings.task_ended(4);
    timings.task_started(A, 5);
    assert_eq!(
        timings.timings,
        vec![
            TaskTiming { location: A, start: 1, end: Some(2) },
            TaskTiming { location: B, start: 3, end: Some(4) },
            TaskTiming { location: A, start: 5, end: None },
        ]
    );
}

#[test]
fn end_without_start_is_ignored() {
    let mut timings = record();
    timings.task_ended(1);
    assert!(timings.timings.is_empty());
}

#[test]
fn record_is_copied_whole() {
    let mut timings = record();
    timings.task_started(A, 1);
    timings.task_started(B, 2);
    assert_eq!(
        timings.get_current_thread_timings("id"),
        ThreadTaskTimings {
            thread_name: Some("worker".to_owned()),
            thread_id: "id",
            timings: vec![
                TaskTiming { location: A, start: 1, end: None },
                TaskTiming { location: B, start: 2, end: None },
            ],
            total_pushed: 4,
        }
    );
}
