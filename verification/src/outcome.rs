//! How a task ended, and how the panic of a critical task is reported.

use vstd::prelude::*;
use vstd::string::StringExecFns;

verus! {

/// A task result that can be either completed or cancelled.
///
/// `Cancelled` is an ordinary outcome, not an error: the task was stopped by
/// a shutdown before its body finished.
#[derive(Debug, Copy, Clone, PartialEq, Eq)]
pub enum TaskResult<T> {
    /// The task completed successfully with the given result.
    Completed(T),
    /// The task was cancelled.
    Cancelled,
}

impl<T> TaskResult<T> {
    /// Returns true if the task was cancelled.
    pub fn is_cancelled(&self) -> (cancelled: bool)
        ensures
            cancelled == (self is Cancelled),
    {
        match self {
            TaskResult::Cancelled => true,
            TaskResult::Completed(_) => false,
        }
    }

    /// Returns true if the task ran to the end of its body.
    pub fn is_completed(&self) -> (completed: bool)
        ensures
            completed == (self is Completed),
    {
        match self {
            TaskResult::Completed(_) => true,
            TaskResult::Cancelled => false,
        }
    }

    /// The value the body returned, if the task completed.
    pub fn completed(self) -> (value: Option<T>)
        ensures
            value == match self {
                TaskResult::Completed(v) => Some(v),
                TaskResult::Cancelled => None,
            },
    {
        match self {
            TaskResult::Completed(v) => Some(v),
            TaskResult::Cancelled => None,
        }
    }
}

/// What could be read out of a panic's payload.
///
/// A payload can be inspected only as far as it carries a string; anything
/// else is opaque and stays so.
#[derive(Debug, Clone, PartialEq, Eq)]
pub enum PanicPayload {
    /// The payload was a string: the panic message.
    Message(String),
    /// The payload was something else.
    Opaque,
}

impl PanicPayload {
    /// The message as a sequence of characters, if there is one.
    pub open spec fn message(self) -> Option<Seq<char>> {
        match self {
            PanicPayload::Message(m) => Some(m@),
            PanicPayload::Opaque => None,
        }
    }
}

/// What a panic record reads as: `Task '<name>' panicked with error: <message>`
/// where the payload carried a message, `Task '<name>' panicked` where not.
pub open spec fn panic_report(task_name: Seq<char>, message: Option<Seq<char>>) -> Seq<char> {
    match message {
        Some(m) => "Task '"@ + task_name + "' panicked"@ + " with error: "@ + m,
        None => "Task '"@ + task_name + "' panicked"@,
    }
}

/// The record of one panic of a critical task.
#[derive(Debug, Clone, PartialEq, Eq)]
pub struct PanickedTaskError {
    /// The name of the panicked task.
    task_name: String,
    /// What the panic carried.
    error: PanicPayload,
}

impl PanickedTaskError {
    /// The name of the panicked task, as a sequence of characters.
    pub closed spec fn spec_task_name(&self) -> Seq<char> {
        self.task_name@
    }

    /// The captured payload.
    pub closed spec fn spec_payload(&self) -> PanicPayload {
        self.error
    }

    /// Records that the task `task_name` panicked with `error`.
    pub fn new(task_name: &str, error: PanicPayload) -> (record: Self)
        ensures
            record.spec_task_name() == task_name@,
            record.spec_payload() == error,
    {
        PanickedTaskError { task_name: String::from_str(task_name), error }
    }

    /// The name of the panicked task.
    pub fn task_name(&self) -> (name: &str)
        ensures
            name@ == self.spec_task_name(),
    {
        self.task_name.as_str()
    }

    /// The captured payload.
    pub fn payload(&self) -> (payload: &PanicPayload)
        ensures
            *payload == self.spec_payload(),
    {
        &self.error
    }

    /// The panic message, where the payload carried one.
    pub fn message(&self) -> (message: Option<&str>)
        ensures
            match message {
                Some(m) => self.spec_payload().message() == Some(m@),
                None => self.spec_payload().message() is None,
            },
    {
        match &self.error {
            PanicPayload::Message(m) => Some(m.as_str()),
            PanicPayload::Opaque => None,
        }
    }

    /// Renders the record for a human reader.
    pub fn to_string(&self) -> (text: String)
        ensures
            text@ == panic_report(self.spec_task_name(), self.spec_payload().message()),
    {
        let mut text = String::from_str("Task '");
        text.append(self.task_name.as_str());
        text.append("' panicked");
        match &self.error {
            PanicPayload::Message(m) => {
                text.append(" with error: ");
                text.append(m.as_str());
            },
            PanicPayload::Opaque => {},
        }
        text
    }
}

} // verus!
