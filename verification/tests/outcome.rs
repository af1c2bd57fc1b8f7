use katana_tasks::PanicPayload;
use katana_tasks::PanickedTaskError;
use katana_tasks::TaskResult;

#[test]
fn cancelled_result_is_cancelled() {
    let result: TaskResult<u32> = TaskResult::Cancelled;
    assert!(result.is_cancelled());
    assert!(!result.is_completed());
    assert_eq!(result.completed(), None);
}

#[test]
fn completed_result_is_not_cancelled() {
    let result: TaskResult<u32> = TaskResult::Completed(7);
    assert!(!result.is_cancelled());
    assert!(result.is_completed());
    assert_eq!(result.completed(), Some(7));
}

#[test]
fn unit_result_completes_with_unit() {
    let result: TaskResult<()> = TaskResult::Completed(());
    assert!(!result.is_cancelled());
    assert_eq!(result, TaskResult::Completed(()));
    assert_ne!(result, TaskResult::Cancelled);
}

#[test]
fn results_are_copied_whole() {
    let result: TaskResult<&str> = TaskResult::Completed("done");
    let copy: TaskResult<&str> = result;
    assert_eq!(result, copy);
    assert_eq!(copy.completed(), Some("done"));
}

#[test]
fn panic_record_with_a_message() {
    let record = PanickedTaskError::new("X", PanicPayload::Message(String::from("boom")));
    assert_eq!(record.to_string(), "Task 'X' panicked with error: boom");
    assert_eq!(record.task_name(), "X");
    assert_eq!(record.message(), Some("boom"));
    assert_eq!(record.payload(), &PanicPayload::Message(String::from("boom")));
}

#[test]
fn panic_record_without_a_message() {
    let record = PanickedTaskError::new("X", PanicPayload::Opaque);
    assert_eq!(record.to_string(), "Task 'X' panicked");
    assert_eq!(record.task_name(), "X");
    assert_eq!(record.message(), None);
    assert_eq!(record.payload(), &PanicPayload::Opaque);
}

#[test]
fn panic_record_with_an_empty_message() {
    let record = PanickedTaskError::new("sync", PanicPayload::Message(String::new()));
    assert_eq!(record.to_string(), "Task 'sync' panicked with error: ");
    assert_eq!(record.message(), Some(""));
}

#[test]
fn panic_record_of_an_unnamed_task() {
    let record = PanickedTaskError::new("", PanicPayload::Message(String::from("out of range")));
    assert_eq!(record.to_string(), "Task '' panicked with error: out of range");
    let record = PanickedTaskError::new("", PanicPayload::Opaque);
    assert_eq!(record.to_string(), "Task '' panicked");
}

#[test]
fn panic_record_keeps_quotes_and_unicode() {
    let record =
        PanickedTaskError::new("it's", PanicPayload::Message(String::from("d\u{e9}j\u{e0} vu")));
    assert_eq!(record.to_string(), "Task 'it's' panicked with error: d\u{e9}j\u{e0} vu");
}
