use avva_launcher::{launch, Action, Event, HelperHandle, Phase, StartupError, Supervisor};

fn count(acts: &[Action], a: Action) -> usize {
    acts.iter().filter(|x| **x == a).count()
}

#[test]
fn release_launch_spawns_then_finishes() {
    let (s, acts) = launch(false, &vec![Event::Resolved, Event::Spawned(4242)]);
    assert_eq!(acts, vec![Action::ResolveHelper, Action::SpawnHelper, Action::FinishSetup]);
    assert_eq!(s.phase, Phase::Ready);
    assert_eq!(s.helper, Some(HelperHandle { pid: 4242, exit_code: None }));
}

#[test]
fn debug_launch_registers_logger() {
    let es = vec![Event::Resolved, Event::Spawned(17), Event::LoggerRegistered];
    let (s, acts) = launch(true, &es);
    assert_eq!(
        acts,
        vec![Action::ResolveHelper, Action::SpawnHelper, Action::RegisterLogger, Action::FinishSetup]
    );
    assert_eq!(s.phase, Phase::Ready);
    assert_eq!(s.helper.unwrap().pid, 17);
}

#[test]
fn helper_exiting_at_once_does_not_stop_startup() {
    let es = vec![Event::Resolved, Event::Spawned(99), Event::HelperExited(1), Event::LoggerRegistered];
    let (s, acts) = launch(true, &es);
    assert_eq!(s.phase, Phase::Ready);
    assert_eq!(*acts.last().unwrap(), Action::FinishSetup);
    assert_eq!(acts[3], Action::Idle);
    let h = s.helper.unwrap();
    assert_eq!(h.exit_code, Some(1));
    assert!(!h.running());
}

#[test]
fn helper_exit_in_release_build_after_ready() {
    let es = vec![Event::Resolved, Event::Spawned(5), Event::HelperExited(-3)];
    let (s, acts) = launch(false, &es);
    assert_eq!(s.phase, Phase::Ready);
    assert_eq!(acts, vec![Action::ResolveHelper, Action::SpawnHelper, Action::FinishSetup, Action::Idle]);
    assert_eq!(s.helper, Some(HelperHandle { pid: 5, exit_code: Some(-3) }));
}

#[test]
fn missing_helper_is_fatal_and_shows_no_window() {
    let (s, acts) = launch(false, &vec![Event::ResolutionFailed]);
    assert_eq!(acts, vec![Action::ResolveHelper, Action::Abort(StartupError::Resolution)]);
    assert_eq!(s.phase, Phase::Failed(StartupError::Resolution));
    assert_eq!(count(&acts, Action::FinishSetup), 0);
    assert_eq!(s.helper, None);
}

#[test]
fn missing_helper_ignores_later_events() {
    let es = vec![Event::ResolutionFailed, Event::Resolved, Event::Spawned(3), Event::LoggerRegistered];
    let (s, acts) = launch(true, &es);
    assert_eq!(s.phase, Phase::Failed(StartupError::Resolution));
    assert_eq!(acts[1], Action::Abort(StartupError::Resolution));
    assert_eq!(count(&acts, Action::SpawnHelper), 0);
    assert_eq!(count(&acts, Action::FinishSetup), 0);
    assert_eq!(count(&acts, Action::Idle), 3);
}

#[test]
fn spawn_refused_is_fatal() {
    let (s, acts) = launch(true, &vec![Event::Resolved, Event::SpawnFailed]);
    assert_eq!(*acts.last().unwrap(), Action::Abort(StartupError::Spawn));
    assert_eq!(s.phase, Phase::Failed(StartupError::Spawn));
    assert_eq!(s.helper, None);
}

#[test]
fn logger_failure_is_fatal() {
    let es = vec![Event::Resolved, Event::Spawned(8), Event::LoggerFailed];
    let (s, acts) = launch(true, &es);
    assert_eq!(*acts.last().unwrap(), Action::Abort(StartupError::PluginInit));
    assert_eq!(s.phase, Phase::Failed(StartupError::PluginInit));
    assert_eq!(count(&acts, Action::FinishSetup), 0);
}

#[test]
fn repeated_events_spawn_once() {
    let es = vec![
        Event::Resolved,
        Event::Resolved,
        Event::Spawned(7),
        Event::Spawned(8),
        Event::Resolved,
        Event::LoggerRegistered,
    ];
    let (s, acts) = launch(true, &es);
    assert_eq!(count(&acts, Action::SpawnHelper), 1);
    assert_eq!(count(&acts, Action::FinishSetup), 1);
    assert_eq!(s.helper.unwrap().pid, 7);
    assert_eq!(s.phase, Phase::Ready);
}

#[test]
fn no_events_leaves_launch_resolving() {
    let (s, acts) = launch(false, &vec![]);
    assert_eq!(acts, vec![Action::ResolveHelper]);
    assert_eq!(s, Supervisor::new(false));
    assert_eq!(s.phase, Phase::Resolving);
}

#[test]
fn step_hands_back_the_pid_without_waiting() {
    let mut s = Supervisor::new(false);
    assert_eq!(s.first_action(), Action::ResolveHelper);
    assert_eq!(s.step(Event::Resolved), Action::SpawnHelper);
    assert_eq!(s.phase, Phase::Spawning);
    assert_eq!(s.step(Event::Spawned(31337)), Action::FinishSetup);
    let h = s.helper.unwrap();
    assert_eq!(h.pid, 31337);
    assert!(h.running());
}

#[test]
fn unexpected_event_is_ignored() {
    let mut s = Supervisor::new(true);
    assert_eq!(s.step(Event::LoggerRegistered), Action::Idle);
    assert_eq!(s.step(Event::HelperExited(2)), Action::Idle);
    assert_eq!(s, Supervisor::new(true));
}
