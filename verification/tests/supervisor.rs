use wheatley_gui::error::SupervisorError;
use wheatley_gui::form::FormState;
use wheatley_gui::launch::LaunchCommand;
use wheatley_gui::supervisor::{Action, Awaiting, Event, Supervisor};

const PROGRAM: &str = "/opt/ringing/wheatley";

fn supervisor() -> Supervisor {
    Supervisor::new(PROGRAM.to_string())
}

fn command(args: [&str; 3]) -> LaunchCommand {
    LaunchCommand {
        program: PROGRAM.to_string(),
        args: args.iter().map(|arg| arg.to_string()).collect(),
    }
}

fn sample_command() -> LaunchCommand {
    command(["213576498", "--method", "Plain Bob Minor"])
}

/// What the stand-in for the outside world does when it is asked to act.
struct World {
    termination_works: bool,
    next_handle: Option<u32>,
    log: Vec<String>,
}

/// Feeds `request` to the supervisor and acts on its answers until it has
/// no more to ask. Returns the last answer.
fn drive(
    supervisor: &mut Supervisor,
    form: &mut FormState<u32>,
    world: &mut World,
    request: Event<u32>,
) -> Action {
    let mut event = request;
    loop {
        let action = supervisor.step(form, event);
        event = match action {
            Action::Terminate => {
                let handle = *form.active_process().unwrap();
                world.log.push(format!("terminate {}", handle));
                if world.termination_works {
                    Event::Terminated
                } else {
                    Event::TerminationFailed
                }
            }
            Action::Spawn(command) => {
                world.log.push(format!("spawn {} {}", command.program, command.args.join("|")));
                match world.next_handle {
                    Some(handle) => Event::Spawned(handle),
                    None => Event::SpawnFailed,
                }
            }
            last => return last,
        };
    }
}

fn running(handle: u32) -> (Supervisor, FormState<u32>) {
    let mut supervisor = supervisor();
    let mut form: FormState<u32> = FormState::new();
    assert_eq!(supervisor.start(&mut form), Action::Spawn(sample_command()));
    assert_eq!(supervisor.step(&mut form, Event::Spawned(handle)), Action::Done);
    (supervisor, form)
}

#[test]
fn a_new_supervisor_is_at_rest() {
    let supervisor = supervisor();
    assert_eq!(supervisor.program(), PROGRAM);
    assert_eq!(supervisor.awaiting(), Awaiting::Nothing);
    let copy = supervisor.clone();
    assert_eq!(copy.program(), PROGRAM);
    assert_eq!(copy.awaiting(), Awaiting::Nothing);
}

#[test]
fn a_first_start_spawns_without_a_signal() {
    let mut supervisor = supervisor();
    let mut form: FormState<u32> = FormState::new();
    assert_eq!(supervisor.start(&mut form), Action::Spawn(sample_command()));
    assert_eq!(supervisor.awaiting(), Awaiting::Spawn);
    assert_eq!(form.active_process(), None);
    assert_eq!(supervisor.step(&mut form, Event::Spawned(41)), Action::Done);
    assert_eq!(supervisor.awaiting(), Awaiting::Nothing);
    assert_eq!(form.active_process(), Some(&41));
}

#[test]
fn a_first_start_sends_no_termination_signal() {
    let mut supervisor = supervisor();
    let mut form: FormState<u32> = FormState::new();
    let mut world = World { termination_works: true, next_handle: Some(1), log: Vec::new() };
    let last = drive(&mut supervisor, &mut form, &mut world, Event::StartRequested);
    assert_eq!(last, Action::Done);
    assert_eq!(
        world.log,
        vec!["spawn /opt/ringing/wheatley 213576498|--method|Plain Bob Minor".to_string()]
    );
    assert_eq!(form.active_process(), Some(&1));
}

#[test]
fn a_second_start_terminates_before_it_spawns() {
    let (mut supervisor, mut form) = running(1);
    assert_eq!(supervisor.start(&mut form), Action::Terminate);
    assert_eq!(supervisor.awaiting(), Awaiting::TerminationBeforeSpawn);
    assert_eq!(form.active_process(), Some(&1));
    assert_eq!(supervisor.step(&mut form, Event::Terminated), Action::Spawn(sample_command()));
    assert_eq!(supervisor.awaiting(), Awaiting::Spawn);
    assert_eq!(form.active_process(), Some(&1));
    assert_eq!(supervisor.step(&mut form, Event::Spawned(2)), Action::Done);
    assert_eq!(supervisor.awaiting(), Awaiting::Nothing);
    assert_eq!(form.active_process(), Some(&2));
}

#[test]
fn a_second_start_sends_exactly_one_signal_and_replaces_the_handle() {
    let (mut supervisor, mut form) = running(1);
    form.set_method("Grandsire".to_string());
    assert!(form.set_stage(7));
    let mut world = World { termination_works: true, next_handle: Some(2), log: Vec::new() };
    let last = drive(&mut supervisor, &mut form, &mut world, Event::StartRequested);
    assert_eq!(last, Action::Done);
    assert_eq!(
        world.log,
        vec![
            "terminate 1".to_string(),
            "spawn /opt/ringing/wheatley 213576498|--method|Grandsire Triples".to_string(),
        ]
    );
    assert_eq!(form.active_process(), Some(&2));
    assert_ne!(form.active_process(), Some(&1));
}

#[test]
fn every_start_replaces_the_process_before() {
    let mut supervisor = supervisor();
    let mut form: FormState<u32> = FormState::new();
    let mut world = World { termination_works: true, next_handle: Some(1), log: Vec::new() };
    for handle in 1..=3 {
        world.next_handle = Some(handle);
        assert_eq!(
            drive(&mut supervisor, &mut form, &mut world, Event::StartRequested),
            Action::Done
        );
        assert_eq!(form.active_process(), Some(&handle));
    }
    let spawn = "spawn /opt/ringing/wheatley 213576498|--method|Plain Bob Minor".to_string();
    assert_eq!(
        world.log,
        vec![
            spawn.clone(),
            "terminate 1".to_string(),
            spawn.clone(),
            "terminate 2".to_string(),
            spawn,
        ]
    );
}

#[test]
fn the_command_is_built_from_the_form_as_it_stands() {
    let mut supervisor = supervisor();
    let mut form: FormState<u32> =
        FormState::with_fields("99".to_string(), 3, "Grandsire".to_string()).unwrap();
    assert_eq!(
        supervisor.start(&mut form),
        Action::Spawn(command(["99", "--method", "Grandsire Singles"]))
    );
}

#[test]
fn stage_two_ends_the_start() {
    let mut supervisor = supervisor();
    let mut form: FormState<u32> =
        FormState::with_fields("99".to_string(), 2, "Plain Bob".to_string()).unwrap();
    assert_eq!(supervisor.start(&mut form), Action::Fail(SupervisorError::StageLookupFailure));
    assert_eq!(supervisor.awaiting(), Awaiting::Nothing);
    assert_eq!(form.active_process(), None);
    assert!(form.set_stage(3));
    assert_eq!(
        supervisor.start(&mut form),
        Action::Spawn(command(["99", "--method", "Plain Bob Singles"]))
    );
}

#[test]
fn stage_two_is_found_after_the_termination() {
    let (mut supervisor, mut form) = running(1);
    assert!(form.set_stage(2));
    let mut world = World { termination_works: true, next_handle: Some(2), log: Vec::new() };
    let last = drive(&mut supervisor, &mut form, &mut world, Event::StartRequested);
    assert_eq!(last, Action::Fail(SupervisorError::StageLookupFailure));
    assert_eq!(world.log, vec!["terminate 1".to_string()]);
    assert_eq!(form.active_process(), Some(&1));
    assert_eq!(supervisor.awaiting(), Awaiting::Nothing);
}

#[test]
fn only_the_stages_three_to_twelve_are_started() {
    for stage in 2..=24 {
        let mut supervisor = supervisor();
        let mut form: FormState<u32> =
            FormState::with_fields("1".to_string(), stage, "Plain Bob".to_string()).unwrap();
        let action = supervisor.start(&mut form);
        if (3..=12).contains(&stage) {
            assert!(matches!(action, Action::Spawn(_)));
        } else {
            assert_eq!(action, Action::Fail(SupervisorError::StageLookupFailure));
        }
    }
}

#[test]
fn a_failed_termination_ends_the_start() {
    let (mut supervisor, mut form) = running(1);
    let mut world = World { termination_works: false, next_handle: Some(2), log: Vec::new() };
    let last = drive(&mut supervisor, &mut form, &mut world, Event::StartRequested);
    assert_eq!(last, Action::Fail(SupervisorError::TerminationFailure));
    assert_eq!(world.log, vec!["terminate 1".to_string()]);
    assert_eq!(form.active_process(), Some(&1));
    assert_eq!(supervisor.awaiting(), Awaiting::Nothing);
}

#[test]
fn a_failed_spawn_ends_the_start() {
    let mut supervisor = supervisor();
    let mut form: FormState<u32> = FormState::new();
    let mut world = World { termination_works: true, next_handle: None, log: Vec::new() };
    let last = drive(&mut supervisor, &mut form, &mut world, Event::StartRequested);
    assert_eq!(last, Action::Fail(SupervisorError::SpawnFailure));
    assert_eq!(form.active_process(), None);
    assert_eq!(supervisor.awaiting(), Awaiting::Nothing);
}

#[test]
fn a_failed_spawn_after_a_termination_leaves_the_old_handle() {
    let (mut supervisor, mut form) = running(1);
    let mut world = World { termination_works: true, next_handle: None, log: Vec::new() };
    let last = drive(&mut supervisor, &mut form, &mut world, Event::StartRequested);
    assert_eq!(last, Action::Fail(SupervisorError::SpawnFailure));
    assert_eq!(world.log.len(), 2);
    assert_eq!(world.log[0], "terminate 1");
    assert_eq!(form.active_process(), Some(&1));
    assert_eq!(supervisor.awaiting(), Awaiting::Nothing);
}

#[test]
fn a_stage_beyond_the_table_ends_the_start() {
    let mut supervisor = supervisor();
    let mut form: FormState<u32> = FormState::new();
    assert!(form.set_stage(13));
    assert_eq!(supervisor.start(&mut form), Action::Fail(SupervisorError::StageLookupFailure));
    assert_eq!(supervisor.awaiting(), Awaiting::Nothing);
    assert_eq!(form.active_process(), None);
    assert!(form.set_stage(24));
    assert_eq!(supervisor.start(&mut form), Action::Fail(SupervisorError::StageLookupFailure));
    assert!(form.set_stage(12));
    assert_eq!(
        supervisor.start(&mut form),
        Action::Spawn(command(["213576498", "--method", "Plain Bob Maximus"]))
    );
}

#[test]
fn a_stage_beyond_the_table_is_found_after_the_termination() {
    let (mut supervisor, mut form) = running(1);
    assert!(form.set_stage(20));
    let mut world = World { termination_works: true, next_handle: Some(2), log: Vec::new() };
    let last = drive(&mut supervisor, &mut form, &mut world, Event::StartRequested);
    assert_eq!(last, Action::Fail(SupervisorError::StageLookupFailure));
    assert_eq!(world.log, vec!["terminate 1".to_string()]);
    assert_eq!(form.active_process(), Some(&1));
    assert_eq!(supervisor.awaiting(), Awaiting::Nothing);
}

#[test]
fn closing_without_a_process_does_nothing() {
    let mut supervisor = supervisor();
    let mut form: FormState<u32> = FormState::new();
    assert_eq!(supervisor.on_window_close(&mut form), Action::Done);
    assert_eq!(supervisor.awaiting(), Awaiting::Nothing);
    assert_eq!(form.active_process(), None);
    let mut world = World { termination_works: false, next_handle: None, log: Vec::new() };
    let last = drive(&mut supervisor, &mut form, &mut world, Event::CloseRequested);
    assert_eq!(last, Action::Done);
    assert!(world.log.is_empty());
}

#[test]
fn closing_with_a_process_sends_one_signal() {
    let (mut supervisor, mut form) = running(9);
    assert_eq!(supervisor.on_window_close(&mut form), Action::Terminate);
    assert_eq!(supervisor.awaiting(), Awaiting::TerminationOnClose);
    assert_eq!(supervisor.step(&mut form, Event::Terminated), Action::Done);
    assert_eq!(supervisor.awaiting(), Awaiting::Nothing);
    assert_eq!(form.active_process(), Some(&9));
}

#[test]
fn closing_with_a_process_spawns_nothing() {
    let (mut supervisor, mut form) = running(9);
    let mut world = World { termination_works: true, next_handle: Some(10), log: Vec::new() };
    let last = drive(&mut supervisor, &mut form, &mut world, Event::CloseRequested);
    assert_eq!(last, Action::Done);
    assert_eq!(world.log, vec!["terminate 9".to_string()]);
    assert_eq!(form.active_process(), Some(&9));
}

#[test]
fn a_failed_termination_on_close_is_reported() {
    let (mut supervisor, mut form) = running(9);
    let mut world = World { termination_works: false, next_handle: None, log: Vec::new() };
    let last = drive(&mut supervisor, &mut form, &mut world, Event::CloseRequested);
    assert_eq!(last, Action::Fail(SupervisorError::TerminationFailure));
    assert_eq!(world.log, vec!["terminate 9".to_string()]);
    assert_eq!(form.active_process(), Some(&9));
    assert_eq!(supervisor.awaiting(), Awaiting::Nothing);
}

#[test]
fn outcomes_that_nobody_waits_for_are_ignored() {
    let mut supervisor = supervisor();
    let mut form: FormState<u32> = FormState::new();
    assert_eq!(supervisor.step(&mut form, Event::Terminated), Action::Ignored);
    assert_eq!(supervisor.step(&mut form, Event::TerminationFailed), Action::Ignored);
    assert_eq!(supervisor.step(&mut form, Event::Spawned(3)), Action::Ignored);
    assert_eq!(supervisor.step(&mut form, Event::SpawnFailed), Action::Ignored);
    assert_eq!(supervisor.awaiting(), Awaiting::Nothing);
    assert_eq!(form.active_process(), None);
}

#[test]
fn requests_wait_until_the_outcome_is_in() {
    let mut supervisor = supervisor();
    let mut form: FormState<u32> = FormState::new();
    assert_eq!(supervisor.start(&mut form), Action::Spawn(sample_command()));
    assert_eq!(supervisor.start(&mut form), Action::Ignored);
    assert_eq!(supervisor.on_window_close(&mut form), Action::Ignored);
    assert_eq!(supervisor.step(&mut form, Event::Terminated), Action::Ignored);
    assert_eq!(supervisor.awaiting(), Awaiting::Spawn);
    assert_eq!(supervisor.step(&mut form, Event::Spawned(1)), Action::Done);

    assert_eq!(supervisor.start(&mut form), Action::Terminate);
    assert_eq!(supervisor.start(&mut form), Action::Ignored);
    assert_eq!(supervisor.step(&mut form, Event::Spawned(2)), Action::Ignored);
    assert_eq!(supervisor.step(&mut form, Event::SpawnFailed), Action::Ignored);
    assert_eq!(supervisor.awaiting(), Awaiting::TerminationBeforeSpawn);
    assert_eq!(form.active_process(), Some(&1));

    assert_eq!(supervisor.step(&mut form, Event::TerminationFailed),
        Action::Fail(SupervisorError::TerminationFailure));
    assert_eq!(supervisor.on_window_close(&mut form), Action::Terminate);
    assert_eq!(supervisor.on_window_close(&mut form), Action::Ignored);
    assert_eq!(supervisor.step(&mut form, Event::Spawned(2)), Action::Ignored);
    assert_eq!(supervisor.awaiting(), Awaiting::TerminationOnClose);
}

#[test]
fn each_error_has_its_sentence() {
    assert_eq!(
        SupervisorError::TerminationFailure.message(),
        "the running process could not be stopped"
    );
    assert_eq!(SupervisorError::SpawnFailure.message(), "the program could not be started");
    assert_eq!(SupervisorError::StageLookupFailure.message(), "there is no name for this stage");
}
