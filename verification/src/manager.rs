//! The task manager: admission of tasks, the race of each task against the
//! cancellation signal, the interception of a critical task's panic, and the
//! drain.

use core::future::Future;
use tokio::runtime::Handle;
use vstd::prelude::*;
use vstd::string::StringExecFns;

use crate::model::Event;
use crate::model::ManagerState;
use crate::model::TaskRecord;
use crate::model::TaskState;
use crate::outcome::PanicPayload;
use crate::outcome::PanickedTaskError;
use crate::outcome::TaskResult;
use crate::task::name_view;
use crate::task::Task;
use crate::task::TaskBuilder;

verus! {

/// `tokio::runtime::Handle`, the handle to a Tokio runtime, as a type that
/// is carried and never looked into: nothing is assumed of it. The manager
/// keeps the one it was made with and hands it back on request.
#[verifier::external_type_specification]
#[verifier::external_body]
pub struct ExHandle(Handle);

/// Identifies one admitted task of one manager.
#[derive(Debug, Copy, Clone, PartialEq, Eq, Hash, Structural)]
pub struct TaskId {
    index: u64,
}

impl View for TaskId {
    type V = int;

    closed spec fn view(&self) -> int {
        self.index as int
    }
}

impl TaskId {
    /// The task's place in the order of admission, from zero.
    pub fn index(&self) -> (index: u64)
        ensures
            index == self@,
    {
        self.index
    }
}

/// Why a task was not admitted.
#[derive(Debug, Copy, Clone, PartialEq, Eq, Structural)]
pub enum SpawnError {
    /// The drain has begun: the tracker is closed.
    Closed,
}

/// What one evaluation of a task's race against cancellation gave.
#[derive(Debug, Copy, Clone, PartialEq, Eq)]
pub enum RaceStep<T> {
    /// The task is resolved, with this outcome.
    Resolved(TaskResult<T>),
    /// Neither the body nor the signal has won yet.
    Pending,
    /// The task is not running: it was resolved before, or never admitted.
    Untracked,
}

/// How far a drain has come.
#[derive(Debug, Copy, Clone, PartialEq, Eq, Structural)]
pub enum ShutdownStatus {
    /// The cancellation signal has not fired yet.
    AwaitingCancellation,
    /// The signal has fired, and this many tasks have still to resolve.
    AwaitingTasks(usize),
    /// The signal has fired and every task has resolved.
    Drained,
}

/// The name for a panic record: the task's own, or the empty name for a task
/// that has none.
pub open spec fn name_or_empty(name: Option<Seq<char>>) -> Seq<char> {
    match name {
        Some(n) => n,
        None => Seq::empty(),
    }
}

/// The registration of one running task.
struct TaskEntry {
    id: u64,
    critical: bool,
    name: Option<String>,
}

/// Whether `entries` holds a registration of task `task`.
spec fn tracks(entries: Seq<TaskEntry>, task: int) -> bool {
    exists|i: int| 0 <= i < entries.len() && #[trigger] entries[i].id == task
}

/// Supervises the tasks spawned through it: it admits them until a drain
/// begins, tells each one at every evaluation of its race whether it goes
/// on, completes or is cancelled, fires the one cancellation signal when a
/// critical task panics, and says when a drain is over.
pub struct TaskManager {
    /// A handle to the Tokio runtime.
    handle: Handle,
    /// Whether the tracker is closed.
    closed: bool,
    /// Whether the cancellation signal has fired.
    cancelled: bool,
    /// How many tasks were admitted so far.
    admitted: u64,
    /// The tasks that are running.
    in_flight: Vec<TaskEntry>,
    /// Every task admitted so far.
    tasks: Ghost<Seq<TaskRecord>>,
}

impl View for TaskManager {
    type V = ManagerState;

    closed spec fn view(&self) -> ManagerState {
        ManagerState { closed: self.closed, cancelled: self.cancelled, tasks: self.tasks@ }
    }
}

impl TaskManager {
    /// The runtime handle that the manager was made with.
    pub closed spec fn spec_handle(&self) -> Handle {
        self.handle
    }

    /// The manager's invariant: the registrations in flight are those of the
    /// running tasks, one each.
    pub closed spec fn wf(&self) -> bool {
        &&& self.admitted == self.tasks@.len()
        &&& forall|i: int|
            0 <= i < self.in_flight@.len() ==> {
                let entry = #[trigger] self.in_flight@[i];
                &&& self@.is_running(entry.id as int)
                &&& self.tasks@[entry.id as int].critical == entry.critical
                &&& self.tasks@[entry.id as int].name == name_view(entry.name)
            }
        &&& forall|i: int, j: int|
            0 <= i < j < self.in_flight@.len() ==> (#[trigger] self.in_flight@[i]).id != (
            #[trigger] self.in_flight@[j]).id
        &&& forall|task: int| #[trigger]
            self@.is_running(task) ==> tracks(self.in_flight@, task)
    }

    /// The registrations in flight are as many as the running tasks.
    proof fn lemma_in_flight_counts_running(&self)
        requires
            self.wf(),
        ensures
            self@.running().finite(),
            self@.running().len() == self.in_flight@.len(),
    {
        let entries = self.in_flight@;
        let ids = Seq::new(entries.len(), |i: int| entries[i].id as int);
        assert(ids.no_duplicates());
        assert forall|task: int| ids.to_set().contains(task) <==> self@.running().contains(
            task,
        ) by {
            if ids.to_set().contains(task) {
                let i = choose|i: int| 0 <= i < ids.len() && ids[i] == task;
                assert(entries[i].id == task);
            }
            if self@.running().contains(task) {
                assert(self@.is_running(task));
                let i = choose|i: int| 0 <= i < entries.len() && #[trigger] entries[i].id == task;
                assert(ids[i] == task);
            }
        }
        assert(ids.to_set() =~= self@.running());
        ids.unique_seq_to_set();
        vstd::seq_lib::seq_to_set_is_finite(ids);
    }

    /// Create a new manager from the given Tokio runtime handle: its tracker
    /// is open, its cancellation signal has not fired, and it has no task.
    pub fn new(handle: Handle) -> (manager: Self)
        ensures
            manager.wf(),
            manager@ == ManagerState::init(),
            manager.spec_handle() == handle,
    {
        Self {
            handle,
            closed: false,
            cancelled: false,
            admitted: 0,
            in_flight: Vec::new(),
            tasks: Ghost(Seq::empty()),
        }
    }

    /// Return the handle to the Tokio runtime that the manager is associated
    /// with.
    pub fn handle(&self) -> (handle: &Handle)
        ensures
            *handle == self.spec_handle(),
    {
        &self.handle
    }

    /// Whether the tracker is closed, that is, whether a drain has begun.
    pub fn is_closed(&self) -> (closed: bool)
        ensures
            closed == self@.closed,
    {
        self.closed
    }

    /// Whether the cancellation signal has fired.
    pub fn is_cancelled(&self) -> (cancelled: bool)
        ensures
            cancelled == self@.cancelled,
    {
        self.cancelled
    }

    /// How many tasks were admitted so far.
    pub fn admitted(&self) -> (admitted: u64)
        requires
            self.wf(),
        ensures
            admitted == self@.tasks.len(),
    {
        self.admitted
    }

    /// How many tasks are running.
    pub fn len(&self) -> (len: usize)
        requires
            self.wf(),
        ensures
            self@.running().finite(),
            len == self@.running().len(),
    {
        proof {
            self.lemma_in_flight_counts_running();
        }
        self.in_flight.len()
    }

    /// Whether no task is running.
    pub fn is_empty(&self) -> (empty: bool)
        requires
            self.wf(),
        ensures
            empty == self@.idle(),
    {
        let empty = self.in_flight.len() == 0;
        proof {
            if empty {
                assert forall|task: int| !self@.is_running(task) by {
                    if self@.is_running(task) {
                        assert(tracks(self.in_flight@, task));
                    }
                }
            } else {
                assert(self@.is_running(self.in_flight@[0].id as int));
            }
        }
        empty
    }

    /// Where the registration of task `id` stands among those in flight.
    fn position(&self, id: u64) -> (position: Option<usize>)
        requires
            self.wf(),
        ensures
            match position {
                Some(i) => i < self.in_flight@.len() && self.in_flight@[i as int].id == id,
                None => !self@.is_running(id as int),
            },
    {
        let mut i: usize = 0;
        while i < self.in_flight.len()
            invariant
                i <= self.in_flight@.len(),
                forall|k: int| 0 <= k < i ==> (#[trigger] self.in_flight@[k]).id != id,
            decreases self.in_flight@.len() - i,
        {
            if self.in_flight[i].id == id {
                return Some(i);
            }
            i += 1;
        }
        proof {
            if self@.is_running(id as int) {
                assert(tracks(self.in_flight@, id as int));
            }
        }
        None
    }

    /// Whether task `id` is running.
    pub fn is_running(&self, id: TaskId) -> (running: bool)
        requires
            self.wf(),
        ensures
            running == self@.is_running(id@),
    {
        match self.position(id.index) {
            Some(i) => {
                assert(self@.is_running(self.in_flight@[i as int].id as int));
                true
            },
            None => false,
        }
    }

    /// Takes task `id` out of the registrations in flight and records that
    /// it has moved to `state`.
    fn release(&mut self, position: usize, state: Ghost<TaskState>) -> (entry: TaskEntry)
        requires
            old(self).wf(),
            position < old(self).in_flight@.len(),
            !(state@ is Running),
        ensures
            final(self).wf(),
            entry == old(self).in_flight@[position as int],
            final(self)@ == old(self)@.resolve(entry.id as int, state@),
            final(self).spec_handle() == old(self).spec_handle(),
    {
        let ghost before = self.in_flight@;
        let ghost records = self.tasks@;
        let entry = self.in_flight.remove(position);
        let ghost task = entry.id as int;
        proof {
            assert(entry == before[position as int]);
            assert(old(self)@.is_running(task));
        }
        self.tasks = Ghost(records.update(task, records[task].with_state(state@)));
        proof {
            let after = self.in_flight@;
            assert forall|i: int| 0 <= i < after.len() implies {
                let e = #[trigger] after[i];
                &&& self@.is_running(e.id as int)
                &&& self.tasks@[e.id as int].critical == e.critical
                &&& self.tasks@[e.id as int].name == name_view(e.name)
            } by {
                let k = if i < position { i } else { i + 1 };
                assert(after[i] == before[k]);
                assert(before[k].id != before[position as int].id);
            }
            assert forall|i: int, j: int| 0 <= i < j < after.len() implies (#[trigger] after[i]).id
                != (#[trigger] after[j]).id by {
                let ki = if i < position { i } else { i + 1 };
                let kj = if j < position { j } else { j + 1 };
                assert(after[i] == before[ki]);
                assert(after[j] == before[kj]);
            }
            assert forall|t: int| #[trigger] self@.is_running(t) implies tracks(after, t) by {
                assert(t != task);
                assert(old(self)@.is_running(t));
                assert(tracks(before, t));
                let k = choose|k: int| 0 <= k < before.len() && #[trigger] before[k].id == t;
                let i = if k < position { k } else { k - 1 };
                assert(after[i] == before[k]);
            }
        }
        entry
    }

    /// Admits `task`, unless the drain has begun.
    ///
    /// On success the task is running and is handed back with its
    /// identifier, for the executor to run it. Once the tracker is closed
    /// the task is rejected and the manager stays as it was.
    pub fn spawn_task<'fut, F>(&mut self, task: Task<'fut, F>) -> (admission: Result<
        (TaskId, Task<'fut, F>),
        SpawnError,
    >)
        requires
            old(self).wf(),
            old(self)@.tasks.len() < u64::MAX,
        ensures
            final(self).wf(),
            final(self).spec_handle() == old(self).spec_handle(),
            final(self)@ == old(self)@.step(
                Event::Spawn { critical: task.spec_critical(), name: task.spec_name() },
            ),
            match admission {
                Ok((id, admitted)) => {
                    &&& !old(self)@.closed
                    &&& id@ == old(self)@.tasks.len()
                    &&& admitted == task
                },
                Err(e) => old(self)@.closed && e == SpawnError::Closed,
            },
    {
        if self.closed {
            return Err(SpawnError::Closed);
        }
        let id = self.admitted;
        let critical = task.is_critical();
        let name = match task.name() {
            Some(n) => Some(String::from_str(n)),
            None => None,
        };
        let ghost before = self.in_flight@;
        let ghost record = TaskRecord {
            critical: task.spec_critical(),
            name: task.spec_name(),
            state: TaskState::Running,
        };
        self.in_flight.push(TaskEntry { id, critical, name });
        self.admitted = id + 1;
        self.tasks = Ghost(self.tasks@.push(record));
        proof {
            let after = self.in_flight@;
            assert forall|i: int| 0 <= i < after.len() implies {
                let e = #[trigger] after[i];
                &&& self@.is_running(e.id as int)
                &&& self.tasks@[e.id as int].critical == e.critical
                &&& self.tasks@[e.id as int].name == name_view(e.name)
            } by {
                if i < before.len() {
                    assert(after[i] == before[i]);
                    assert(old(self)@.is_running(before[i].id as int));
                }
            }
            assert forall|i: int, j: int| 0 <= i < j < after.len() implies (#[trigger] after[i]).id
                != (#[trigger] after[j]).id by {
                assert(after[i] == before[i]);
                assert(old(self)@.is_running(before[i].id as int));
                if j < before.len() {
                    assert(after[j] == before[j]);
                }
            }
            assert forall|t: int| #[trigger] self@.is_running(t) implies tracks(after, t) by {
                if t == id {
                    assert(after[before.len() as int].id == t);
                } else {
                    assert(old(self)@.is_running(t));
                    assert(tracks(before, t));
                    let k = choose|k: int| 0 <= k < before.len() && #[trigger] before[k].id == t;
                    assert(after[k] == before[k]);
                }
            }
        }
        Ok((TaskId { index: id }, task))
    }

    /// Spawn a normal task.
    ///
    /// Normal task can only get cancelled but cannot cancel other tasks
    /// unlike critical tasks. The task has no name and is not measured.
    pub fn spawn<F>(&mut self, task: F) -> (admission: Result<
        (TaskId, Task<'static, F>),
        SpawnError,
    >) where F: Future + Send + 'static, F::Output: Send + 'static
        requires
            old(self).wf(),
            old(self)@.tasks.len() < u64::MAX,
        ensures
            final(self).wf(),
            final(self).spec_handle() == old(self).spec_handle(),
            final(self)@ == old(self)@.step(Event::Spawn { critical: false, name: None }),
            match admission {
                Ok((id, admitted)) => {
                    &&& !old(self)@.closed
                    &&& id@ == old(self)@.tasks.len()
                    &&& admitted.spec_future() == task
                    &&& !admitted.spec_critical()
                    &&& admitted.spec_name() is None
                    &&& !admitted.spec_metrics()
                },
                Err(e) => old(self)@.closed && e == SpawnError::Closed,
            },
    {
        self.spawn_task(TaskBuilder::<F, F::Output>::new(task).build())
    }

    /// Spawn a critical task with the given name.
    ///
    /// Critical tasks will cancel other tasks when panicked.
    pub fn spawn_critical<F>(&mut self, name: &'static str, task: F) -> (admission: Result<
        (TaskId, Task<'static, F>),
        SpawnError,
    >) where F: Future<Output = ()> + Send + 'static
        requires
            old(self).wf(),
            old(self)@.tasks.len() < u64::MAX,
        ensures
            final(self).wf(),
            final(self).spec_handle() == old(self).spec_handle(),
            final(self)@ == old(self)@.step(Event::Spawn { critical: true, name: Some(name@) }),
            match admission {
                Ok((id, admitted)) => {
                    &&& !old(self)@.closed
                    &&& id@ == old(self)@.tasks.len()
                    &&& admitted.spec_future() == task
                    &&& admitted.spec_critical()
                    &&& admitted.spec_name() == Some(name@)
                    &&& !admitted.spec_metrics()
                },
                Err(e) => old(self)@.closed && e == SpawnError::Closed,
            },
    {
        self.spawn_task(TaskBuilder::<F, ()>::new(task).name(name).critical().build())
    }

    /// Fires the cancellation signal. Firing a signal that has fired changes
    /// nothing.
    pub fn cancel(&mut self)
        requires
            old(self).wf(),
        ensures
            final(self).wf(),
            final(self).spec_handle() == old(self).spec_handle(),
            final(self)@ == old(self)@.step(Event::Cancel),
    {
        self.cancelled = true;
        proof {
            assert forall|t: int| #[trigger] self@.is_running(t) implies tracks(
                self.in_flight@,
                t,
            ) by {
                assert(old(self)@.is_running(t));
            }
            assert forall|i: int| 0 <= i < self.in_flight@.len() implies self@.is_running(
                (#[trigger] self.in_flight@[i]).id as int,
            ) by {
                assert(old(self)@.is_running(self.in_flight@[i].id as int));
            }
        }
    }

    /// Evaluates the race of task `id` against the cancellation signal;
    /// `body` is what the task's body returned, if it has returned.
    ///
    /// The signal is looked at first: once it has fired, a running task is
    /// cancelled, whatever its body did. Else a returned body completes the
    /// task with its value, and a body still at work leaves it pending. A
    /// task that is not running gets no second outcome.
    pub fn race<T>(&mut self, id: TaskId, body: Option<T>) -> (step: RaceStep<T>)
        requires
            old(self).wf(),
        ensures
            final(self).wf(),
            final(self).spec_handle() == old(self).spec_handle(),
            final(self)@ == old(self)@.step(Event::Race { task: id@, finished: body is Some }),
            step == if !old(self)@.is_running(id@) {
                RaceStep::Untracked
            } else if old(self)@.cancelled {
                RaceStep::Resolved(TaskResult::Cancelled)
            } else {
                match body {
                    Some(value) => RaceStep::Resolved(TaskResult::Completed(value)),
                    None => RaceStep::Pending,
                }
            },
    {
        match self.position(id.index) {
            None => RaceStep::Untracked,
            Some(position) => {
                assert(self@.is_running(self.in_flight@[position as int].id as int));
                if self.cancelled {
                    let _ = self.release(position, Ghost(TaskState::Cancelled));
                    RaceStep::Resolved(TaskResult::Cancelled)
                } else {
                    match body {
                        Some(value) => {
                            let _ = self.release(position, Ghost(TaskState::Completed));
                            RaceStep::Resolved(TaskResult::Completed(value))
                        },
                        None => {
                            assert(self@.resolve(id@, TaskState::Running) =~= self@) by {
                                assert(self@.tasks.update(
                                    id@,
                                    self@.tasks[id@].with_state(TaskState::Running),
                                ) =~= self@.tasks);
                            }
                            RaceStep::Pending
                        },
                    }
                }
            },
        }
    }

    /// Takes note that the body of the critical task `id` panicked with
    /// `payload`, the panic having been caught before it reached the
    /// executor.
    ///
    /// For a running critical task this fires the cancellation signal and
    /// resolves the task. It gives the panic record to report and the
    /// task's outcome, which is `Completed`: the failure reaches the other
    /// tasks through the signal alone. For any other task nothing changes
    /// and nothing is given.
    pub fn intercept_panic(&mut self, id: TaskId, payload: PanicPayload) -> (intercepted: Option<
        (PanickedTaskError, TaskResult<()>),
    >)
        requires
            old(self).wf(),
        ensures
            final(self).wf(),
            final(self).spec_handle() == old(self).spec_handle(),
            final(self)@ == old(self)@.step(Event::Panic { task: id@ }),
            intercepted is Some <==> old(self)@.is_running(id@) && old(self)@.tasks[id@].critical,
            intercepted matches Some((record, outcome)) ==> {
                &&& record.spec_task_name() == name_or_empty(old(self)@.tasks[id@].name)
                &&& record.spec_payload() == payload
                &&& outcome == TaskResult::Completed(())
            },
    {
        match self.position(id.index) {
            None => None,
            Some(position) => {
                assert(self@.is_running(self.in_flight@[position as int].id as int));
                if !self.in_flight[position].critical {
                    return None;
                }
                let entry = self.release(position, Ghost(TaskState::Panicked));
                self.cancel();
                let record = match &entry.name {
                    Some(name) => PanickedTaskError::new(name.as_str(), payload),
                    None => {
                        proof {
                            reveal_strlit("");
                        }
                        assert(""@ =~= Seq::<char>::empty());
                        PanickedTaskError::new("", payload)
                    },
                };
                Some((record, TaskResult::Completed(())))
            },
        }
    }

    /// Takes note that the future of task `id` left the executor without
    /// resolving: the task no longer counts as running, and it has no
    /// outcome. Returns whether the task was running.
    pub fn abort(&mut self, id: TaskId) -> (aborted: bool)
        requires
            old(self).wf(),
        ensures
            final(self).wf(),
            final(self).spec_handle() == old(self).spec_handle(),
            final(self)@ == old(self)@.step(Event::Abort { task: id@ }),
            aborted == old(self)@.is_running(id@),
    {
        match self.position(id.index) {
            None => false,
            Some(position) => {
                assert(self@.is_running(self.in_flight@[position as int].id as int));
                let _ = self.release(position, Ghost(TaskState::Aborted));
                true
            },
        }
    }

    /// Begins the drain, or goes on with it: closes the tracker, so that no
    /// further task is admitted, and says what the drain still waits for.
    ///
    /// The drain is over once the cancellation signal has fired and every
    /// task has resolved, and not before.
    pub fn wait_shutdown(&mut self) -> (status: ShutdownStatus)
        requires
            old(self).wf(),
        ensures
            final(self).wf(),
            final(self).spec_handle() == old(self).spec_handle(),
            final(self)@ == old(self)@.step(Event::Close),
            final(self)@.running().finite(),
            status == if !final(self)@.cancelled {
                ShutdownStatus::AwaitingCancellation
            } else if final(self)@.running().len() > 0 {
                ShutdownStatus::AwaitingTasks(final(self)@.running().len() as usize)
            } else {
                ShutdownStatus::Drained
            },
            status is Drained <==> final(self)@.drained(),
    {
        self.closed = true;
        proof {
            assert forall|t: int| #[trigger] self@.is_running(t) implies tracks(
                self.in_flight@,
                t,
            ) by {
                assert(old(self)@.is_running(t));
            }
            assert forall|i: int| 0 <= i < self.in_flight@.len() implies self@.is_running(
                (#[trigger] self.in_flight@[i]).id as int,
            ) by {
                assert(old(self)@.is_running(self.in_flight@[i].id as int));
            }
        }
        let running = self.in_flight.len();
        proof {
            self.lemma_in_flight_counts_running();
            if running == 0 {
                assert forall|task: int| !self@.is_running(task) by {
                    if self@.is_running(task) {
                        assert(tracks(self.in_flight@, task));
                    }
                }
            } else {
                assert(self@.is_running(self.in_flight@[0].id as int));
            }
        }
        if !self.cancelled {
            ShutdownStatus::AwaitingCancellation
        } else if running > 0 {
            ShutdownStatus::AwaitingTasks(running)
        } else {
            ShutdownStatus::Drained
        }
    }
}

} // verus!
