//! Runs of the supervisor: what a sequence of events leads to, and what that
//! says about the order in which processes are stopped and started.

use crate::error::SupervisorError;
use crate::form::FormModel;
use crate::stage::stage_in_table;
use crate::supervisor::{launch_of, next, ActionModel, Awaiting, Event, SupervisorModel};
use vstd::prelude::*;

verus! {

/// Where a run of events leaves the supervisor and the form, and the
/// actions that were asked for on the way, in their order.
pub struct Trace<H> {
    pub supervisor: SupervisorModel,
    pub form: FormModel<H>,
    pub actions: Seq<ActionModel>,
}

/// Feeds `events` to the supervisor, one after the other.
pub open spec fn run<H>(
    supervisor: SupervisorModel,
    form: FormModel<H>,
    events: Seq<Event<H>>,
) -> Trace<H>
    decreases events.len(),
{
    if events.len() == 0 {
        Trace { supervisor, form, actions: Seq::empty() }
    } else {
        let before = run(supervisor, form, events.drop_last());
        let step = next(before.supervisor, before.form, events.last());
        Trace {
            supervisor: step.supervisor,
            form: step.form,
            actions: before.actions.push(step.action),
        }
    }
}

/// A run of one event is one step.
pub proof fn lemma_run_one<H>(supervisor: SupervisorModel, form: FormModel<H>, event: Event<H>)
    ensures
        run(supervisor, form, seq![event]) == (Trace {
            supervisor: next(supervisor, form, event).supervisor,
            form: next(supervisor, form, event).form,
            actions: seq![next(supervisor, form, event).action],
        }),
{
    let events = seq![event];
    assert(events.drop_last() =~= Seq::<Event<H>>::empty());
    assert(run(supervisor, form, events.drop_last()).actions =~= Seq::<ActionModel>::empty());
    assert(run(supervisor, form, events).actions =~= seq![next(supervisor, form, event).action]);
}

/// A run goes on from where the run of all but its last event has ended.
pub proof fn lemma_run_push<H>(
    supervisor: SupervisorModel,
    form: FormModel<H>,
    events: Seq<Event<H>>,
    event: Event<H>,
)
    ensures
        run(supervisor, form, events.push(event)) == ({
            let before = run(supervisor, form, events);
            let step = next(before.supervisor, before.form, event);
            Trace {
                supervisor: step.supervisor,
                form: step.form,
                actions: before.actions.push(step.action),
            }
        }),
{
    assert(events.push(event).drop_last() =~= events);
}

/// A start with no process to replace sends no termination signal: the
/// program is started at once, and the handle that comes back is tracked.
pub proof fn lemma_start_without_process<H>(
    supervisor: SupervisorModel,
    form: FormModel<H>,
    handle: H,
)
    requires
        supervisor.awaiting is Nothing,
        form.active_process is None,
        stage_in_table(form.stage),
    ensures
        run(supervisor, form, seq![Event::StartRequested, Event::Spawned(handle)]) == (Trace {
            supervisor,
            form: FormModel { active_process: Some(handle), ..form },
            actions: seq![ActionModel::Spawn(launch_of(supervisor, form)), ActionModel::Done],
        }),
{
    let first = seq![Event::<H>::StartRequested];
    lemma_run_one(supervisor, form, Event::<H>::StartRequested);
    lemma_run_push(supervisor, form, first, Event::Spawned(handle));
    assert(first.push(Event::Spawned(handle)) =~= seq![
        Event::StartRequested,
        Event::Spawned(handle),
    ]);
    assert(seq![ActionModel::Spawn(launch_of(supervisor, form))].push(ActionModel::Done) =~= seq![
        ActionModel::Spawn(launch_of(supervisor, form)),
        ActionModel::Done,
    ]);
}

/// A start that has a process to replace sends it one termination signal,
/// and starts the program only once that signal has gone out. The handle
/// that comes back takes the place of the old one: where it is another
/// handle, the form tracks another process than before.
pub proof fn lemma_start_replaces_process<H>(
    supervisor: SupervisorModel,
    form: FormModel<H>,
    handle: H,
)
    requires
        supervisor.awaiting is Nothing,
        form.active_process is Some,
        stage_in_table(form.stage),
    ensures
        run(
            supervisor,
            form,
            seq![Event::StartRequested, Event::Terminated, Event::Spawned(handle)],
        ) == (Trace {
            supervisor,
            form: FormModel { active_process: Some(handle), ..form },
            actions: seq![
                ActionModel::Terminate,
                ActionModel::Spawn(launch_of(supervisor, form)),
                ActionModel::Done,
            ],
        }),
        form.active_process != Some(handle) ==> run(
            supervisor,
            form,
            seq![Event::StartRequested, Event::Terminated, Event::Spawned(handle)],
        ).form.active_process != form.active_process,
{
    let first = seq![Event::<H>::StartRequested];
    let second = first.push(Event::Terminated);
    lemma_run_one(supervisor, form, Event::<H>::StartRequested);
    lemma_run_push(supervisor, form, first, Event::Terminated);
    lemma_run_push(supervisor, form, second, Event::Spawned(handle));
    assert(second.push(Event::Spawned(handle)) =~= seq![
        Event::StartRequested,
        Event::Terminated,
        Event::Spawned(handle),
    ]);
    assert(seq![ActionModel::Terminate].push(
        ActionModel::Spawn(launch_of(supervisor, form)),
    ).push(ActionModel::Done) =~= seq![
        ActionModel::Terminate,
        ActionModel::Spawn(launch_of(supervisor, form)),
        ActionModel::Done,
    ]);
}

/// A start whose termination signal cannot be sent ends there: nothing is
/// started, and the form tracks what it tracked before.
pub proof fn lemma_start_stops_at_failed_termination<H>(
    supervisor: SupervisorModel,
    form: FormModel<H>,
)
    requires
        supervisor.awaiting is Nothing,
        form.active_process is Some,
    ensures
        run(supervisor, form, seq![Event::StartRequested, Event::TerminationFailed]) == (Trace {
            supervisor,
            form,
            actions: seq![
                ActionModel::Terminate,
                ActionModel::Fail(SupervisorError::TerminationFailure),
            ],
        }),
{
    let first = seq![Event::<H>::StartRequested];
    lemma_run_one(supervisor, form, Event::<H>::StartRequested);
    lemma_run_push(supervisor, form, first, Event::TerminationFailed);
    assert(first.push(Event::TerminationFailed) =~= seq![
        Event::StartRequested,
        Event::TerminationFailed,
    ]);
    assert(seq![ActionModel::Terminate].push(
        ActionModel::Fail(SupervisorError::TerminationFailure),
    ) =~= seq![ActionModel::Terminate, ActionModel::Fail(SupervisorError::TerminationFailure)]);
}

/// A start for a stage without an entry in the table of names starts
/// nothing and ends with the lookup failure. A tracked process is told to
/// stop all the same, before the stage is looked up, and stays tracked.
pub proof fn lemma_start_stops_at_failed_lookup<H>(supervisor: SupervisorModel, form: FormModel<H>)
    requires
        supervisor.awaiting is Nothing,
        !stage_in_table(form.stage),
    ensures
        form.active_process is None ==> run(supervisor, form, seq![Event::StartRequested]) == (
        Trace {
            supervisor,
            form,
            actions: seq![ActionModel::Fail(SupervisorError::StageLookupFailure)],
        }),
        form.active_process is Some ==> run(
            supervisor,
            form,
            seq![Event::StartRequested, Event::Terminated],
        ) == (Trace {
            supervisor,
            form,
            actions: seq![
                ActionModel::Terminate,
                ActionModel::Fail(SupervisorError::StageLookupFailure),
            ],
        }),
{
    let first = seq![Event::<H>::StartRequested];
    lemma_run_one(supervisor, form, Event::<H>::StartRequested);
    lemma_run_push(supervisor, form, first, Event::Terminated);
    assert(first.push(Event::Terminated) =~= seq![Event::StartRequested, Event::Terminated]);
    assert(seq![ActionModel::Terminate].push(
        ActionModel::Fail(SupervisorError::StageLookupFailure),
    ) =~= seq![ActionModel::Terminate, ActionModel::Fail(SupervisorError::StageLookupFailure)]);
}

/// Closing the window while no process is tracked does nothing at all.
pub proof fn lemma_close_without_process<H>(supervisor: SupervisorModel, form: FormModel<H>)
    requires
        supervisor.awaiting is Nothing,
        form.active_process is None,
    ensures
        run(supervisor, form, seq![Event::CloseRequested]) == (Trace {
            supervisor,
            form,
            actions: seq![ActionModel::Done],
        }),
{
    lemma_run_one(supervisor, form, Event::<H>::CloseRequested);
}

/// Closing the window while a process is tracked sends it one termination
/// signal and nothing else. The form goes on tracking the process.
pub proof fn lemma_close_with_process<H>(supervisor: SupervisorModel, form: FormModel<H>)
    requires
        supervisor.awaiting is Nothing,
        form.active_process is Some,
    ensures
        run(supervisor, form, seq![Event::CloseRequested, Event::Terminated]) == (Trace {
            supervisor,
            form,
            actions: seq![ActionModel::Terminate, ActionModel::Done],
        }),
{
    let first = seq![Event::<H>::CloseRequested];
    lemma_run_one(supervisor, form, Event::<H>::CloseRequested);
    lemma_run_push(supervisor, form, first, Event::Terminated);
    assert(first.push(Event::Terminated) =~= seq![Event::CloseRequested, Event::Terminated]);
    assert(seq![ActionModel::Terminate].push(ActionModel::Done) =~= seq![
        ActionModel::Terminate,
        ActionModel::Done,
    ]);
}

/// The program is never started while a tracked process may still run: a
/// step asks for a spawn only if the form tracks nothing when the start is
/// requested, or if the termination of what it tracks has just been
/// confirmed. What is started is then the command for the form as it stands.
pub proof fn lemma_spawn_only_on_clear_way<H>(
    supervisor: SupervisorModel,
    form: FormModel<H>,
    event: Event<H>,
)
    requires
        next(supervisor, form, event).action is Spawn,
    ensures
        (supervisor.awaiting is Nothing && event is StartRequested && form.active_process is None)
            || (supervisor.awaiting is TerminationBeforeSpawn && event is Terminated),
        stage_in_table(form.stage),
        next(supervisor, form, event).action == ActionModel::Spawn(launch_of(supervisor, form)),
        next(supervisor, form, event).supervisor.awaiting is Spawn,
{
}

/// A termination signal is only ever asked for at rest, for a process that
/// the form tracks, on a request to start or to close.
pub proof fn lemma_terminate_only_with_process<H>(
    supervisor: SupervisorModel,
    form: FormModel<H>,
    event: Event<H>,
)
    requires
        next(supervisor, form, event).action is Terminate,
    ensures
        supervisor.awaiting is Nothing,
        form.active_process is Some,
        event is StartRequested || event is CloseRequested,
{
}

/// No step touches what the user has typed or the program that is started.
/// The tracked process changes only when an awaited spawn reports its
/// handle, and a form that tracks a process never goes back to tracking
/// none.
pub proof fn lemma_step_keeps_fields<H>(
    supervisor: SupervisorModel,
    form: FormModel<H>,
    event: Event<H>,
)
    ensures
        next(supervisor, form, event).form.same_fields(form),
        next(supervisor, form, event).supervisor.program == supervisor.program,
        next(supervisor, form, event).form.active_process != form.active_process ==> (
        supervisor.awaiting is Spawn && event is Spawned),
        form.active_process is Some ==> next(supervisor, form, event).form.active_process is Some,
{
}

/// What holds of every step holds of every run: the fields and the program
/// stay, and a tracked process is never dropped without a successor.
pub proof fn lemma_run_keeps_fields<H>(
    supervisor: SupervisorModel,
    form: FormModel<H>,
    events: Seq<Event<H>>,
)
    ensures
        run(supervisor, form, events).form.same_fields(form),
        run(supervisor, form, events).supervisor.program == supervisor.program,
        run(supervisor, form, events).actions.len() == events.len(),
        form.active_process is Some ==> run(supervisor, form, events).form.active_process is Some,
    decreases events.len(),
{
    if events.len() > 0 {
        let before = run(supervisor, form, events.drop_last());
        lemma_run_keeps_fields(supervisor, form, events.drop_last());
        lemma_step_keeps_fields(before.supervisor, before.form, events.last());
    }
}

/// In `actions`, the one at `at` asks for a termination, and every later
/// one answers an event that came out of turn.
pub open spec fn termination_stands(actions: Seq<ActionModel>, at: int) -> bool {
    &&& 0 <= at < actions.len()
    &&& actions[at] is Terminate
    &&& forall|i: int| at < i < actions.len() ==> (#[trigger] actions[i]) is Ignored
}

/// A supervisor that waits for a termination has asked for it, and has
/// asked for nothing since.
pub proof fn lemma_waiting_has_asked<H>(
    supervisor: SupervisorModel,
    form: FormModel<H>,
    events: Seq<Event<H>>,
)
    requires
        supervisor.awaiting is Nothing,
        run(supervisor, form, events).supervisor.awaiting is TerminationBeforeSpawn || run(
            supervisor,
            form,
            events,
        ).supervisor.awaiting is TerminationOnClose,
    ensures
        exists|at: int| termination_stands(run(supervisor, form, events).actions, at),
    decreases events.len(),
{
    let after = run(supervisor, form, events);
    if events.len() > 0 {
        let before = run(supervisor, form, events.drop_last());
        let step = next(before.supervisor, before.form, events.last());
        lemma_run_keeps_fields(supervisor, form, events.drop_last());
        if step.action is Terminate {
            assert(termination_stands(after.actions, events.len() - 1));
        } else {
            assert(step.action is Ignored);
            lemma_waiting_has_asked(supervisor, form, events.drop_last());
            let at = choose|at: int| termination_stands(before.actions, at);
            assert(termination_stands(after.actions, at));
        }
    }
}

/// The order of stopping and starting, for every run from rest: if the
/// form tracks a process and the next event makes the supervisor start the
/// program, then that event confirms a termination, and the supervisor has
/// asked for that termination earlier in the run and for nothing else
/// since.
pub proof fn lemma_spawn_waits_for_termination<H>(
    supervisor: SupervisorModel,
    form: FormModel<H>,
    events: Seq<Event<H>>,
    event: Event<H>,
)
    requires
        supervisor.awaiting is Nothing,
        run(supervisor, form, events).form.active_process is Some,
        run(supervisor, form, events.push(event)).actions.last() is Spawn,
    ensures
        event is Terminated,
        exists|at: int| termination_stands(run(supervisor, form, events).actions, at),
{
    let before = run(supervisor, form, events);
    lemma_run_push(supervisor, form, events, event);
    lemma_spawn_only_on_clear_way(before.supervisor, before.form, event);
    lemma_waiting_has_asked(supervisor, form, events);
}

/// As long as the form tracks no process, no run has asked for a
/// termination.
pub proof fn lemma_no_termination_without_process<H>(
    supervisor: SupervisorModel,
    form: FormModel<H>,
    events: Seq<Event<H>>,
)
    requires
        run(supervisor, form, events).form.active_process is None,
    ensures
        forall|i: int|
            0 <= i < events.len() ==> !((#[trigger] run(supervisor, form, events).actions[i])
                is Terminate),
    decreases events.len(),
{
    if events.len() > 0 {
        let before = run(supervisor, form, events.drop_last());
        lemma_step_keeps_fields(before.supervisor, before.form, events.last());
        lemma_run_keeps_fields(supervisor, form, events.drop_last());
        lemma_no_termination_without_process(supervisor, form, events.drop_last());
    }
}

/// Whatever is given up leaves the form as it was and the supervisor at
/// rest, ready for the next request.
pub proof fn lemma_failure_leaves_form<H>(
    supervisor: SupervisorModel,
    form: FormModel<H>,
    event: Event<H>,
)
    requires
        next(supervisor, form, event).action is Fail,
    ensures
        next(supervisor, form, event).form == form,
        next(supervisor, form, event).supervisor.awaiting is Nothing,
{
}

} // verus!
