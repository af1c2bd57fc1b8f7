//! The supervision protocol as a state machine over mathematical values.
//!
//! A manager's state is whether its tracker is closed, whether its
//! cancellation signal has fired, and the record of every task it has ever
//! admitted. Everything that can happen to a manager is an [`Event`], and
//! [`ManagerState::step`] says what each event does. The executable manager
//! is specified against this machine, and the laws of the protocol are proved
//! of it.

use vstd::prelude::*;

verus! {

/// Where a task stands.
#[derive(PartialEq, Eq, Structural)]
pub enum TaskState {
    /// Admitted and not yet resolved: the tracker counts it.
    Running,
    /// Its body finished before the cancellation signal was seen.
    Completed,
    /// The cancellation signal was seen first and its future was abandoned.
    Cancelled,
    /// It is critical and its body panicked; the panic was intercepted.
    Panicked,
    /// Its future left the executor without resolving: the body of a task
    /// that is not critical panicked, or the executor was torn down.
    Aborted,
}

/// The two outcomes that a task's handle can yield.
#[derive(PartialEq, Eq, Structural)]
pub enum Outcome {
    /// `TaskResult::Completed`.
    Completed,
    /// `TaskResult::Cancelled`.
    Cancelled,
}

/// What a manager knows of one task.
pub struct TaskRecord {
    /// Whether the task is critical.
    pub critical: bool,
    /// The task's name.
    pub name: Option<Seq<char>>,
    /// Where the task stands.
    pub state: TaskState,
}

impl TaskRecord {
    /// The outcome that the task's handle yields, once there is one. A
    /// critical task whose panic was intercepted counts as completed: the
    /// failure travels through the cancellation signal, not the outcome.
    pub open spec fn outcome(self) -> Option<Outcome> {
        match self.state {
            TaskState::Running => None,
            TaskState::Completed => Some(Outcome::Completed),
            TaskState::Cancelled => Some(Outcome::Cancelled),
            TaskState::Panicked => Some(Outcome::Completed),
            TaskState::Aborted => None,
        }
    }

    /// The record with another state.
    pub open spec fn with_state(self, state: TaskState) -> TaskRecord {
        TaskRecord { critical: self.critical, name: self.name, state }
    }
}

/// One thing that happens to a manager.
pub enum Event {
    /// A task asks to be admitted.
    Spawn { critical: bool, name: Option<Seq<char>> },
    /// The cancellation signal is fired from outside: an explicit trigger, or
    /// the manager being dropped.
    Cancel,
    /// A drain begins: the tracker is closed.
    Close,
    /// The race of task `task` against the cancellation signal is evaluated;
    /// `finished` says whether its body has returned.
    Race { task: int, finished: bool },
    /// The body of the critical task `task` panicked and the panic was
    /// intercepted.
    Panic { task: int },
    /// The future of task `task` left the executor without resolving.
    Abort { task: int },
}

/// The state of a manager.
pub struct ManagerState {
    /// Whether the tracker is closed.
    pub closed: bool,
    /// Whether the cancellation signal has fired.
    pub cancelled: bool,
    /// Every task admitted so far, in the order of admission. A task's
    /// identifier is its index here.
    pub tasks: Seq<TaskRecord>,
}

impl ManagerState {
    /// A new manager: tracker open, signal not fired, no task.
    pub open spec fn init() -> ManagerState {
        ManagerState { closed: false, cancelled: false, tasks: Seq::empty() }
    }

    /// Whether `task` identifies a task that has been admitted.
    pub open spec fn knows(self, task: int) -> bool {
        0 <= task < self.tasks.len()
    }

    /// Whether `task` is admitted and not yet resolved.
    pub open spec fn is_running(self, task: int) -> bool {
        self.knows(task) && self.tasks[task].state is Running
    }

    /// The tasks that the tracker counts.
    pub open spec fn running(self) -> Set<int> {
        Set::new(|task: int| self.is_running(task))
    }

    /// Whether no task is left running.
    pub open spec fn idle(self) -> bool {
        forall|task: int| !self.is_running(task)
    }

    /// Whether a drain is over: the tracker is closed, the signal has fired
    /// and no task is left running.
    pub open spec fn drained(self) -> bool {
        self.closed && self.cancelled && self.idle()
    }

    /// The state with task `task` moved to `state`.
    pub open spec fn resolve(self, task: int, state: TaskState) -> ManagerState {
        ManagerState {
            closed: self.closed,
            cancelled: self.cancelled,
            tasks: self.tasks.update(task, self.tasks[task].with_state(state)),
        }
    }

    /// The state with the cancellation signal fired.
    pub open spec fn fire(self) -> ManagerState {
        ManagerState { closed: self.closed, cancelled: true, tasks: self.tasks }
    }

    /// What a race evaluation makes of a running task: cancelled if the
    /// signal has fired, else completed if its body has returned, else still
    /// running.
    pub open spec fn race_verdict(self, finished: bool) -> TaskState {
        if self.cancelled {
            TaskState::Cancelled
        } else if finished {
            TaskState::Completed
        } else {
            TaskState::Running
        }
    }

    /// The state after one event.
    pub open spec fn step(self, event: Event) -> ManagerState {
        match event {
            Event::Spawn { critical, name } => {
                if self.closed {
                    self
                } else {
                    ManagerState {
                        closed: self.closed,
                        cancelled: self.cancelled,
                        tasks: self.tasks.push(
                            TaskRecord { critical, name, state: TaskState::Running },
                        ),
                    }
                }
            },
            Event::Cancel => self.fire(),
            Event::Close => ManagerState {
                closed: true,
                cancelled: self.cancelled,
                tasks: self.tasks,
            },
            Event::Race { task, finished } => {
                if self.is_running(task) {
                    self.resolve(task, self.race_verdict(finished))
                } else {
                    self
                }
            },
            Event::Panic { task } => {
                if self.is_running(task) && self.tasks[task].critical {
                    self.resolve(task, TaskState::Panicked).fire()
                } else {
                    self
                }
            },
            Event::Abort { task } => {
                if self.is_running(task) {
                    self.resolve(task, TaskState::Aborted)
                } else {
                    self
                }
            },
        }
    }

    /// The state after a sequence of events, the first first.
    pub open spec fn run(self, events: Seq<Event>) -> ManagerState
        decreases events.len(),
    {
        if events.len() == 0 {
            self
        } else {
            self.step(events[0]).run(events.drop_first())
        }
    }
}

} // verus!
