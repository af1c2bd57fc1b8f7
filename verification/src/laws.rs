//! The laws of the supervision protocol, proved of the state machine that the
//! manager is specified against.

use vstd::prelude::*;

use crate::model::Event;
use crate::model::ManagerState;
use crate::model::Outcome;
use crate::model::TaskState;

verus! {

/// What one event can and cannot do: the history only grows, a closed
/// tracker stays closed and admits nothing, a fired signal stays fired, a
/// task keeps its criticality and name, a task that is no longer running is
/// never touched again, and under a fired signal no running task completes.
pub proof fn lemma_step(state: ManagerState, event: Event)
    ensures
        state.tasks.len() <= state.step(event).tasks.len(),
        state.closed ==> state.step(event).closed && state.step(event).tasks.len()
            == state.tasks.len(),
        state.cancelled ==> state.step(event).cancelled,
        forall|task: int| #[trigger]
            state.knows(task) ==> {
                &&& state.step(event).tasks[task].critical == state.tasks[task].critical
                &&& state.step(event).tasks[task].name == state.tasks[task].name
            },
        forall|task: int| #[trigger]
            state.knows(task) && !state.is_running(task) ==> state.step(event).tasks[task]
                == state.tasks[task],
        forall|task: int| #[trigger]
            state.is_running(task) && state.cancelled ==> !(state.step(event).tasks[task].state
                is Completed),
{
}

/// The tracker is monotonic: once closed it never reopens, and from then on
/// no task is admitted, whatever happens.
pub proof fn law_closed_tracker_admits_nothing(state: ManagerState, events: Seq<Event>)
    requires
        state.closed,
    ensures
        state.run(events).closed,
        state.run(events).tasks.len() == state.tasks.len(),
    decreases events.len(),
{
    if events.len() > 0 {
        lemma_step(state, events[0]);
        law_closed_tracker_admits_nothing(state.step(events[0]), events.drop_first());
    }
}

/// A spawn issued after a drain has begun is rejected: it leaves the manager
/// exactly as it was.
pub proof fn law_spawn_after_close_is_rejected(
    state: ManagerState,
    critical: bool,
    name: Option<Seq<char>>,
)
    ensures
        state.step(Event::Close).step(Event::Spawn { critical, name }) == state.step(
            Event::Close,
        ),
{
}

/// The cancellation signal is monotonic: once fired it stays fired, whatever
/// happens.
pub proof fn law_fired_signal_stays_fired(state: ManagerState, events: Seq<Event>)
    requires
        state.cancelled,
    ensures
        state.run(events).cancelled,
    decreases events.len(),
{
    if events.len() > 0 {
        lemma_step(state, events[0]);
        law_fired_signal_stays_fired(state.step(events[0]), events.drop_first());
    }
}

/// Firing the cancellation signal twice is the same as firing it once.
pub proof fn law_cancel_is_idempotent(state: ManagerState)
    ensures
        state.step(Event::Cancel).step(Event::Cancel) == state.step(Event::Cancel),
{
}

/// Two critical tasks that panic fire the signal once between them: in
/// either order the manager ends in the same state.
pub proof fn law_panics_commute(state: ManagerState, first: int, second: int)
    requires
        first != second,
    ensures
        state.step(Event::Panic { task: first }).step(Event::Panic { task: second })
            == state.step(Event::Panic { task: second }).step(Event::Panic { task: first }),
{
    let a = state.step(Event::Panic { task: first }).step(Event::Panic { task: second });
    let b = state.step(Event::Panic { task: second }).step(Event::Panic { task: first });
    assert(a.tasks =~= b.tasks);
}

/// A task never has a second outcome: once it is no longer running, no event
/// changes its record.
pub proof fn law_outcome_is_final(state: ManagerState, events: Seq<Event>, task: int)
    requires
        state.knows(task),
        !state.is_running(task),
    ensures
        state.run(events).knows(task),
        state.run(events).tasks[task] == state.tasks[task],
    decreases events.len(),
{
    if events.len() > 0 {
        lemma_step(state, events[0]);
        let next = state.step(events[0]);
        assert(next.knows(task));
        law_outcome_is_final(next, events.drop_first(), task);
    }
}

/// A task is never without an outcome at the end: once the drain is over,
/// every admitted task whose future did not leave the executor unresolved
/// has exactly one of the two outcomes.
pub proof fn law_drained_tasks_have_outcomes(state: ManagerState, task: int)
    requires
        state.drained(),
        state.knows(task),
        !(state.tasks[task].state is Aborted),
    ensures
        state.tasks[task].outcome() == Some(Outcome::Completed) || state.tasks[task].outcome()
            == Some(Outcome::Cancelled),
        state.tasks[task].outcome() == Some(Outcome::Cancelled) <==> state.tasks[task].state
            is Cancelled,
{
    assert(!state.is_running(task));
}

/// At its race, a running task always has an outcome as soon as either side
/// has won: cancelled if the signal has fired, completed if only its body has
/// returned.
pub proof fn law_race_resolves(state: ManagerState, task: int, finished: bool)
    requires
        state.is_running(task),
        state.cancelled || finished,
    ensures
        state.step(Event::Race { task, finished }).tasks[task].outcome() == Some(
            if state.cancelled {
                Outcome::Cancelled
            } else {
                Outcome::Completed
            },
        ),
{
}

/// Cancellation that fires before a task's body has finished cancels the
/// task: its next race is lost to the signal, whether or not the body has
/// returned by then, and events in between do not change that.
pub proof fn law_cancellation_preempts(
    state: ManagerState,
    events: Seq<Event>,
    task: int,
    finished: bool,
)
    requires
        state.cancelled,
        state.is_running(task),
        state.run(events).is_running(task),
    ensures
        state.run(events).step(Event::Race { task, finished }).tasks[task].state is Cancelled,
{
    law_fired_signal_stays_fired(state, events);
}

/// Under a fired signal no running task completes any more, whatever
/// happens: it stays running, is cancelled, is aborted, or (if critical)
/// panics.
pub proof fn law_no_completion_after_cancellation(
    state: ManagerState,
    events: Seq<Event>,
    task: int,
)
    requires
        state.cancelled,
        state.is_running(task),
    ensures
        state.run(events).knows(task),
        !(state.run(events).tasks[task].state is Completed),
    decreases events.len(),
{
    if events.len() > 0 {
        lemma_step(state, events[0]);
        let next = state.step(events[0]);
        assert(next.knows(task));
        if next.is_running(task) {
            law_no_completion_after_cancellation(next, events.drop_first(), task);
        } else {
            law_outcome_is_final(next, events.drop_first(), task);
        }
    }
}

/// After a critical task has panicked, the signal has fired, the panicked
/// task counts as completed, and every other task that was still running
/// loses its next race: none of them completes any more.
pub proof fn law_panic_cancels_siblings(
    state: ManagerState,
    panicked: int,
    events: Seq<Event>,
    other: int,
    finished: bool,
)
    requires
        state.is_running(panicked),
        state.tasks[panicked].critical,
        state.is_running(other),
        other != panicked,
    ensures
        state.step(Event::Panic { task: panicked }).cancelled,
        state.step(Event::Panic { task: panicked }).tasks[panicked].outcome() == Some(
            Outcome::Completed,
        ),
        state.step(Event::Panic { task: panicked }).step(
            Event::Race { task: other, finished },
        ).tasks[other].state is Cancelled,
        !(state.step(Event::Panic { task: panicked }).run(events).tasks[other].state
            is Completed),
{
    let after = state.step(Event::Panic { task: panicked });
    assert(after.is_running(other));
    law_no_completion_after_cancellation(after, events, other);
}

/// A panic of a task that is not critical is not intercepted: it fires no
/// signal and changes nothing in the manager.
pub proof fn law_normal_panic_is_not_intercepted(state: ManagerState, task: int)
    requires
        state.knows(task),
        !state.tasks[task].critical,
    ensures
        state.step(Event::Panic { task }) == state,
{
}

/// A drain is over only when the tracker is closed, the signal has fired and
/// no task is running; and a drain that is over stays over.
pub proof fn law_drain_is_stable(state: ManagerState, events: Seq<Event>)
    requires
        state.drained(),
    ensures
        state.run(events).drained(),
        state.run(events).tasks == state.tasks,
    decreases events.len(),
{
    if events.len() > 0 {
        lemma_step(state, events[0]);
        let next = state.step(events[0]);
        assert(next.tasks =~= state.tasks) by {
            assert forall|task: int| 0 <= task < state.tasks.len() implies next.tasks[task]
                == state.tasks[task] by {
                assert(state.knows(task));
                assert(!state.is_running(task));
            }
        }
        assert(next.idle()) by {
            assert forall|task: int| !next.is_running(task) by {
                assert(!state.is_running(task));
            }
        }
        law_drain_is_stable(next, events.drop_first());
    }
}

/// A manager that never admitted a task is drained as soon as the signal has
/// fired and the tracker is closed, in whichever order.
pub proof fn law_empty_manager_drains_at_once(state: ManagerState)
    requires
        state.tasks.len() == 0,
    ensures
        state.step(Event::Close).step(Event::Cancel).drained(),
        state.step(Event::Cancel).step(Event::Close).drained(),
        !state.cancelled ==> !state.step(Event::Close).drained(),
{
}

} // verus!
