//! The supervisor of the one process that the form starts.
//!
//! The supervisor never touches a process itself. It is told what has
//! happened, an [`Event`], and answers with what has to happen next, an
//! [`Action`]. Whoever embeds it sends the signal or starts the program and
//! comes back with the outcome. In this way the order of things is decided
//! here: a tracked process is told to stop, and has to have been told
//! successfully, before the next one is started.

use crate::error::SupervisorError;
use crate::form::{FormModel, FormState};
use crate::launch::{launch_args, launch_args_of, LaunchCommand, LaunchModel};
use crate::stage::{stage_has_entry, stage_in_table};
use vstd::prelude::*;
use vstd::string::*;

verus! {

/// The outcome that the supervisor is waiting for.
#[derive(Clone, Copy, Debug, PartialEq, Eq, Structural)]
pub enum Awaiting {
    /// Nothing is under way.
    Nothing,
    /// A start is under way: the tracked process has to go first.
    TerminationBeforeSpawn,
    /// The window is closing: the tracked process has to go.
    TerminationOnClose,
    /// A start is under way: the program is being started.
    Spawn,
}

/// What the supervisor is told.
pub enum Event<H> {
    /// The user asks for a start.
    StartRequested,
    /// The window is about to close.
    CloseRequested,
    /// The termination signal has been sent to the tracked process.
    Terminated,
    /// The termination signal could not be sent.
    TerminationFailed,
    /// The program has been started, and this is its handle.
    Spawned(H),
    /// The program could not be started.
    SpawnFailed,
}

/// What the supervisor asks for.
#[derive(Debug, PartialEq, Eq)]
pub enum Action {
    /// Send the termination signal to the process that the form tracks, and
    /// report [`Event::Terminated`] or [`Event::TerminationFailed`].
    Terminate,
    /// Start this command, and report [`Event::Spawned`] or
    /// [`Event::SpawnFailed`].
    Spawn(LaunchCommand),
    /// Nothing more: what was asked for has been done.
    Done,
    /// Nothing more: what was asked for has been given up, for this reason.
    Fail(SupervisorError),
    /// The event came out of turn and has changed nothing.
    Ignored,
}

/// What an [`Action`] says.
pub enum ActionModel {
    Terminate,
    Spawn(LaunchModel),
    Done,
    Fail(SupervisorError),
    Ignored,
}

impl View for Action {
    type V = ActionModel;

    open spec fn view(&self) -> ActionModel {
        match self {
            Action::Terminate => ActionModel::Terminate,
            Action::Spawn(command) => ActionModel::Spawn(command@),
            Action::Done => ActionModel::Done,
            Action::Fail(error) => ActionModel::Fail(*error),
            Action::Ignored => ActionModel::Ignored,
        }
    }
}

/// The supervisor: the program it starts, and what it is waiting for.
pub struct Supervisor {
    program: String,
    awaiting: Awaiting,
}

/// What a [`Supervisor`] holds.
pub struct SupervisorModel {
    /// The path of the executable.
    pub program: Seq<char>,
    /// The outcome that is waited for.
    pub awaiting: Awaiting,
}

impl View for Supervisor {
    type V = SupervisorModel;

    closed spec fn view(&self) -> SupervisorModel {
        SupervisorModel { program: self.program@, awaiting: self.awaiting }
    }
}

/// Where one event leaves the supervisor and the form, and what is asked for.
pub struct Outcome<H> {
    pub supervisor: SupervisorModel,
    pub form: FormModel<H>,
    pub action: ActionModel,
}

/// The command that starts the program for the form as it stands.
pub open spec fn launch_of<H>(supervisor: SupervisorModel, form: FormModel<H>) -> LaunchModel {
    LaunchModel {
        program: supervisor.program,
        args: launch_args_of(form.identifier, form.method, form.stage),
    }
}

/// The supervisor comes to rest, with `action` as its last word.
pub open spec fn settle<H>(
    supervisor: SupervisorModel,
    form: FormModel<H>,
    action: ActionModel,
) -> Outcome<H> {
    Outcome {
        supervisor: SupervisorModel { awaiting: Awaiting::Nothing, ..supervisor },
        form,
        action,
    }
}

/// The supervisor asks for `action` and waits for its outcome.
pub open spec fn ask<H>(
    supervisor: SupervisorModel,
    form: FormModel<H>,
    awaiting: Awaiting,
    action: ActionModel,
) -> Outcome<H> {
    Outcome { supervisor: SupervisorModel { awaiting, ..supervisor }, form, action }
}

/// The second half of a start, once no process stands in the way: the full
/// name of the method is put together and the program is started with it.
/// For a stage without an entry in the table of names the start is given
/// up instead, with the lookup failure as the reason.
pub open spec fn launch<H>(supervisor: SupervisorModel, form: FormModel<H>) -> Outcome<H> {
    if stage_in_table(form.stage) {
        ask(supervisor, form, Awaiting::Spawn, ActionModel::Spawn(launch_of(supervisor, form)))
    } else {
        settle(supervisor, form, ActionModel::Fail(SupervisorError::StageLookupFailure))
    }
}

/// What one event does.
///
/// At rest, a request to start or to close first has the tracked process
/// terminated, if there is one. Without one, a start goes on to the launch
/// at once and a close has nothing to do. A confirmed termination lets a
/// start go on to the launch and completes a close; a failed one ends
/// either. A reported handle replaces whatever the form tracked. An event
/// that is not waited for changes nothing.
pub open spec fn next<H>(supervisor: SupervisorModel, form: FormModel<H>, event: Event<H>) -> Outcome<
    H,
> {
    match (supervisor.awaiting, event) {
        (Awaiting::Nothing, Event::StartRequested) => {
            if form.active_process is Some {
                ask(supervisor, form, Awaiting::TerminationBeforeSpawn, ActionModel::Terminate)
            } else {
                launch(supervisor, form)
            }
        },
        (Awaiting::Nothing, Event::CloseRequested) => {
            if form.active_process is Some {
                ask(supervisor, form, Awaiting::TerminationOnClose, ActionModel::Terminate)
            } else {
                settle(supervisor, form, ActionModel::Done)
            }
        },
        (Awaiting::TerminationBeforeSpawn, Event::Terminated) => launch(supervisor, form),
        (Awaiting::TerminationOnClose, Event::Terminated) => settle(
            supervisor,
            form,
            ActionModel::Done,
        ),
        (Awaiting::TerminationBeforeSpawn, Event::TerminationFailed)
        | (Awaiting::TerminationOnClose, Event::TerminationFailed) => settle(
            supervisor,
            form,
            ActionModel::Fail(SupervisorError::TerminationFailure),
        ),
        (Awaiting::Spawn, Event::Spawned(handle)) => settle(
            supervisor,
            FormModel { active_process: Some(handle), ..form },
            ActionModel::Done,
        ),
        (Awaiting::Spawn, Event::SpawnFailed) => settle(
            supervisor,
            form,
            ActionModel::Fail(SupervisorError::SpawnFailure),
        ),
        _ => Outcome { supervisor, form, action: ActionModel::Ignored },
    }
}

impl Clone for Supervisor {
    fn clone(&self) -> (copy: Self)
        ensures
            copy@ == self@,
    {
        Supervisor { program: self.program.clone(), awaiting: self.awaiting }
    }
}

impl Supervisor {
    /// A supervisor at rest that will start `program`.
    pub fn new(program: String) -> (supervisor: Self)
        ensures
            supervisor@ == (SupervisorModel { program: program@, awaiting: Awaiting::Nothing }),
    {
        Supervisor { program, awaiting: Awaiting::Nothing }
    }

    /// The path of the executable.
    pub fn program(&self) -> (program: &str)
        ensures
            program@ == self@.program,
    {
        self.program.as_str()
    }

    /// The outcome that is waited for.
    pub fn awaiting(&self) -> (awaiting: Awaiting)
        ensures
            awaiting == self@.awaiting,
    {
        self.awaiting
    }

    fn settle(&mut self, action: Action) -> (last: Action)
        ensures
            final(self)@ == (SupervisorModel { awaiting: Awaiting::Nothing, ..old(self)@ }),
            last == action,
    {
        self.awaiting = Awaiting::Nothing;
        action
    }

    fn launch<H>(&mut self, form: &FormState<H>) -> (action: Action)
        ensures
            final(self)@ == launch(old(self)@, form@).supervisor,
            action@ == launch(old(self)@, form@).action,
    {
        let stage: usize = form.stage();
        if stage_has_entry(stage) {
            let args = launch_args(form.identifier(), form.method(), stage);
            self.awaiting = Awaiting::Spawn;
            Action::Spawn(LaunchCommand { program: self.program.clone(), args })
        } else {
            self.settle(Action::Fail(SupervisorError::StageLookupFailure))
        }
    }

    /// Takes one event and says what has to happen next.
    pub fn step<H>(&mut self, form: &mut FormState<H>, event: Event<H>) -> (action: Action)
        ensures
            final(self)@ == next(old(self)@, old(form)@, event).supervisor,
            final(form)@ == next(old(self)@, old(form)@, event).form,
            action@ == next(old(self)@, old(form)@, event).action,
    {
        match (self.awaiting, event) {
            (Awaiting::Nothing, Event::StartRequested) => {
                if form.has_active_process() {
                    self.awaiting = Awaiting::TerminationBeforeSpawn;
                    Action::Terminate
                } else {
                    self.launch(form)
                }
            },
            (Awaiting::Nothing, Event::CloseRequested) => {
                if form.has_active_process() {
                    self.awaiting = Awaiting::TerminationOnClose;
                    Action::Terminate
                } else {
                    self.settle(Action::Done)
                }
            },
            (Awaiting::TerminationBeforeSpawn, Event::Terminated) => self.launch(form),
            (Awaiting::TerminationOnClose, Event::Terminated) => self.settle(Action::Done),
            (Awaiting::TerminationBeforeSpawn, Event::TerminationFailed)
            | (Awaiting::TerminationOnClose, Event::TerminationFailed) => self.settle(
                Action::Fail(SupervisorError::TerminationFailure),
            ),
            (Awaiting::Spawn, Event::Spawned(handle)) => {
                form.store_process(handle);
                self.settle(Action::Done)
            },
            (Awaiting::Spawn, Event::SpawnFailed) => self.settle(
                Action::Fail(SupervisorError::SpawnFailure),
            ),
            _ => Action::Ignored,
        }
    }

    /// The start action: [`Supervisor::step`] with [`Event::StartRequested`].
    ///
    /// At rest, the answer is [`Action::Terminate`] where the form tracks a
    /// process, and otherwise [`Action::Spawn`] with the command for the
    /// form as it stands, or [`Action::Fail`] where its stage has no entry
    /// in the table of names.
    pub fn start<H>(&mut self, form: &mut FormState<H>) -> (action: Action)
        ensures
            final(self)@ == next(old(self)@, old(form)@, Event::StartRequested).supervisor,
            final(form)@ == next(old(self)@, old(form)@, Event::StartRequested).form,
            action@ == next(old(self)@, old(form)@, Event::StartRequested).action,
    {
        self.step(form, Event::StartRequested)
    }

    /// The hook for the closing window: [`Supervisor::step`] with
    /// [`Event::CloseRequested`].
    ///
    /// At rest, the answer is [`Action::Terminate`] where the form tracks a
    /// process, and otherwise [`Action::Done`]. The window is closed by
    /// whoever owns it, once the supervisor has no more to ask.
    pub fn on_window_close<H>(&mut self, form: &mut FormState<H>) -> (action: Action)
        ensures
            final(self)@ == next(old(self)@, old(form)@, Event::CloseRequested).supervisor,
            final(form)@ == next(old(self)@, old(form)@, Event::CloseRequested).form,
            action@ == next(old(self)@, old(form)@, Event::CloseRequested).action,
    {
        self.step(form, Event::CloseRequested)
    }
}

} // verus!
